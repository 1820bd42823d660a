//! The sparkle generator: every tree pixel fades smoothly toward a target
//! color drawn from a fixed four-color palette, while per-pixel dim events
//! drop the pixel to 20% brightness and let it recover to full over the
//! following ticks. Triggers are cheap deterministic hashes of the current
//! timestamp and the pixel index. The star pixel holds a fixed warm yellow
//! for the whole phase.

use vstd::prelude::*;

use crate::color::{
    apply_brightness,
    scale_brightness,
    spec_apply_brightness,
    spec_off,
    spec_sparkle_star,
    spec_step_toward,
    sparkle_star,
    step_toward,
    Rgb,
};
use crate::geometry::{NUM_LEDS, STAR_INDEX};
use crate::time_in_range;

verus! {

/// Number of frames one sparkle phase emits before it ends.
pub const SPARKLE_TOTAL_TICKS: usize = 500;

/// The four target colors a pixel can be assigned, already dimmed by the
/// global brightness scaler: red, green, blue, white.
pub open spec fn spec_sparkle_palette(idx: int) -> Rgb {
    if idx == 0 {
        Rgb { r: 25, g: 0, b: 0 }
    } else if idx == 1 {
        Rgb { r: 0, g: 25, b: 0 }
    } else if idx == 2 {
        Rgb { r: 0, g: 0, b: 25 }
    } else {
        Rgb { r: 25, g: 25, b: 25 }
    }
}

/// Whether pixel `i` is assigned a new target color at this timestamp.
pub open spec fn spec_target_trigger(time: u64, i: int) -> bool {
    (time + i * 7919) % 10 == 0
}

/// Which palette entry the new target is drawn from.
pub open spec fn spec_palette_index(time: u64, i: int) -> int {
    (time + i * 1234) % 4
}

/// Whether pixel `i`'s dim trigger fires at this timestamp.
pub open spec fn spec_dim_trigger(time: u64, i: int) -> bool {
    (time + i * 13331) % 50 == 0
}

/// A dim event starts only when the trigger fires on a pixel currently at
/// full brightness.
pub open spec fn spec_dim_event(f: u8, time: u64, i: int) -> bool {
    spec_dim_trigger(time, i) && f == 100
}

/// The pixel's target color after one tick.
pub open spec fn spec_new_target(t: Rgb, time: u64, i: int) -> Rgb {
    if spec_target_trigger(time, i) {
        spec_sparkle_palette(spec_palette_index(time, i))
    } else {
        t
    }
}

/// The timestamp at which the pixel's current dim event began, after one
/// tick.
pub open spec fn spec_new_dim_start(f: u8, ds: u64, time: u64, i: int) -> u64 {
    if spec_dim_event(f, time, i) {
        time
    } else {
        ds
    }
}

/// The pixel's brightness factor after one tick: a fresh dim event drops it
/// to 20; otherwise, once the 200ms grace period since the dim start has
/// elapsed, it recovers by 5 per tick (saturating) until it is full again.
pub open spec fn spec_new_factor(f: u8, ds: u64, time: u64, i: int) -> u8 {
    let f1 = if spec_dim_event(f, time, i) {
        20u8
    } else {
        f
    };
    let ds1 = spec_new_dim_start(f, ds, time, i);
    if f1 < 100 && time > ds1 + 200_000 {
        if f1 + 5 <= 255 {
            (f1 + 5) as u8
        } else {
            255u8
        }
    } else {
        f1
    }
}

/// The color after one fade step of every channel toward the target.
pub open spec fn spec_faded(c: Rgb, t: Rgb) -> Rgb {
    Rgb {
        r: spec_step_toward(c.r, t.r),
        g: spec_step_toward(c.g, t.g),
        b: spec_step_toward(c.b, t.b),
    }
}

/// The color with the brightness factor applied to every channel.
pub open spec fn spec_dimmed(c: Rgb, f: u8) -> Rgb {
    Rgb {
        r: spec_apply_brightness(c.r, f),
        g: spec_apply_brightness(c.g, f),
        b: spec_apply_brightness(c.b, f),
    }
}

/// The displayed color of tree pixel `i` after one tick, given its stored
/// color `d`, its target `t`, its brightness factor `f` and its dim start
/// `ds`: one fade step toward the (possibly reassigned) target, then the
/// (possibly updated) brightness factor applied.
pub open spec fn spec_sparkle_pixel(d: Rgb, t: Rgb, f: u8, ds: u64, time: u64, i: int) -> Rgb {
    spec_dimmed(spec_faded(d, spec_new_target(t, time, i)), spec_new_factor(f, ds, time, i))
}

/// Per-pixel fade state of the sparkle phase: a target color, a brightness
/// factor in percent and the timestamp at which the last dim event began,
/// for each of the 21 non-star pixels, plus the tick count of the phase.
pub struct SparkleAnimation {
    pub tick: usize,
    pub targets: Vec<Rgb>,
    pub factors: Vec<u8>,
    pub dim_start_times: Vec<u64>,
}

impl SparkleAnimation {
    /// The state invariant: one entry per non-star pixel, every brightness
    /// factor a multiple of 5 between 20 and 100, and every recorded dim
    /// start a valid timestamp.
    pub open spec fn wf(self) -> bool {
        &&& self.targets@.len() == NUM_LEDS - 1
        &&& self.factors@.len() == NUM_LEDS - 1
        &&& self.dim_start_times@.len() == NUM_LEDS - 1
        &&& forall|i: int|
            0 <= i < NUM_LEDS - 1 ==> 20 <= #[trigger] self.factors@[i] <= 100
        &&& forall|i: int| 0 <= i < NUM_LEDS - 1 ==> #[trigger] self.factors@[i] % 5 == 0
        &&& forall|i: int|
            0 <= i < NUM_LEDS - 1 ==> time_in_range(#[trigger] self.dim_start_times@[i])
    }

    pub open spec fn is_done(self) -> bool {
        self.tick >= SPARKLE_TOTAL_TICKS
    }

    /// A state exactly as phase entry initializes it: at tick zero, one
    /// entry per non-star pixel, every target unlit, every factor at full
    /// brightness, no dim event recorded.
    pub open spec fn spec_fresh(self) -> bool {
        &&& self.tick == 0
        &&& self.targets@.len() == NUM_LEDS - 1
        &&& self.factors@.len() == NUM_LEDS - 1
        &&& self.dim_start_times@.len() == NUM_LEDS - 1
        &&& forall|i: int| 0 <= i < NUM_LEDS - 1 ==> #[trigger] self.targets@[i] == spec_off()
        &&& forall|i: int| 0 <= i < NUM_LEDS - 1 ==> #[trigger] self.factors@[i] == 100
        &&& forall|i: int| 0 <= i < NUM_LEDS - 1 ==> #[trigger] self.dim_start_times@[i] == 0
    }

    /// How one step relates the state and the buffer after the tick to the
    /// state and the buffer before it.
    pub open spec fn spec_step_rel(
        pre: SparkleAnimation,
        post: SparkleAnimation,
        d0: Seq<Rgb>,
        d1: Seq<Rgb>,
        time: u64,
    ) -> bool {
        &&& post.tick == pre.tick + 1
        &&& d1.len() == d0.len()
        &&& forall|i: int|
            0 <= i < NUM_LEDS - 1 ==> #[trigger] post.targets@[i] == spec_new_target(
                pre.targets@[i],
                time,
                i,
            )
        &&& forall|i: int|
            0 <= i < NUM_LEDS - 1 ==> #[trigger] post.factors@[i] == spec_new_factor(
                pre.factors@[i],
                pre.dim_start_times@[i],
                time,
                i,
            )
        &&& forall|i: int|
            0 <= i < NUM_LEDS - 1 ==> #[trigger] post.dim_start_times@[i] == spec_new_dim_start(
                pre.factors@[i],
                pre.dim_start_times@[i],
                time,
                i,
            )
        &&& forall|i: int|
            0 <= i < NUM_LEDS - 1 ==> #[trigger] d1[i] == spec_sparkle_pixel(
                d0[i],
                pre.targets@[i],
                pre.factors@[i],
                pre.dim_start_times@[i],
                time,
                i,
            )
        &&& d1[NUM_LEDS - 1] == spec_sparkle_star()
    }

    /// Fresh state at phase entry: default (unlit) targets, full brightness,
    /// no dim event recorded.
    pub fn new() -> (s: SparkleAnimation)
        ensures
            s.wf(),
            s.spec_fresh(),
    {
        let mut targets: Vec<Rgb> = Vec::new();
        let mut factors: Vec<u8> = Vec::new();
        let mut dim_start_times: Vec<u64> = Vec::new();
        let mut i: usize = 0;
        while i < NUM_LEDS - 1
            invariant
                i <= NUM_LEDS - 1,
                targets@.len() == i,
                factors@.len() == i,
                dim_start_times@.len() == i,
                forall|j: int| 0 <= j < i ==> #[trigger] targets@[j] == spec_off(),
                forall|j: int| 0 <= j < i ==> #[trigger] factors@[j] == 100,
                forall|j: int| 0 <= j < i ==> #[trigger] dim_start_times@[j] == 0,
            decreases NUM_LEDS - 1 - i,
        {
            targets.push(Rgb::off());
            factors.push(100);
            dim_start_times.push(0);
            i = i + 1;
        }
        SparkleAnimation { tick: 0, targets, factors, dim_start_times }
    }

    /// Compute one sparkle frame into `data` and advance the per-pixel fade
    /// state; reports whether the phase has finished.
    #[verifier::loop_isolation(false)]
    pub fn step(&mut self, data: &mut Vec<Rgb>, time: u64) -> (done: bool)
        requires
            old(self).wf(),
            !old(self).is_done(),
            old(data)@.len() == NUM_LEDS,
            time_in_range(time),
        ensures
            final(self).wf(),
            final(data)@.len() == NUM_LEDS,
            Self::spec_step_rel(*old(self), *final(self), old(data)@, final(data)@, time),
            done == final(self).is_done(),
            final(self).tick == old(self).tick + 1,
    {
        let mut i: usize = 0;
        while i < NUM_LEDS - 1
            invariant
                i <= NUM_LEDS - 1,
                self.tick == old(self).tick,
                self.targets@.len() == NUM_LEDS - 1,
                self.factors@.len() == NUM_LEDS - 1,
                self.dim_start_times@.len() == NUM_LEDS - 1,
                data@.len() == NUM_LEDS,
                forall|j: int|
                    0 <= j < i ==> #[trigger] self.targets@[j] == spec_new_target(
                        old(self).targets@[j],
                        time,
                        j,
                    ),
                forall|j: int|
                    i <= j < NUM_LEDS - 1 ==> #[trigger] self.targets@[j] == old(self).targets@[j],
                forall|j: int|
                    0 <= j < i ==> #[trigger] self.factors@[j] == spec_new_factor(
                        old(self).factors@[j],
                        old(self).dim_start_times@[j],
                        time,
                        j,
                    ),
                forall|j: int|
                    i <= j < NUM_LEDS - 1 ==> #[trigger] self.factors@[j] == old(self).factors@[j],
                forall|j: int|
                    0 <= j < i ==> #[trigger] self.dim_start_times@[j] == spec_new_dim_start(
                        old(self).factors@[j],
                        old(self).dim_start_times@[j],
                        time,
                        j,
                    ),
                forall|j: int|
                    i <= j < NUM_LEDS - 1 ==> #[trigger] self.dim_start_times@[j] == old(
                        self,
                    ).dim_start_times@[j],
                forall|j: int|
                    0 <= j < NUM_LEDS - 1 ==> 20 <= #[trigger] self.factors@[j] <= 100
                        && self.factors@[j] % 5 == 0,
                forall|j: int|
                    0 <= j < NUM_LEDS - 1 ==> time_in_range(#[trigger] self.dim_start_times@[j]),
                forall|j: int|
                    0 <= j < i ==> #[trigger] data@[j] == spec_sparkle_pixel(
                        old(data)@[j],
                        old(self).targets@[j],
                        old(self).factors@[j],
                        old(self).dim_start_times@[j],
                        time,
                        j,
                    ),
                forall|j: int| i <= j < NUM_LEDS ==> #[trigger] data@[j] == old(data)@[j],
            decreases NUM_LEDS - 1 - i,
        {
            // Randomly start a dim event on a pixel at full brightness.
            let dim_random = (time + (i as u64) * 13331) % 50;
            if dim_random == 0 && self.factors[i] == 100 {
                self.factors[i] = 20;
                self.dim_start_times[i] = time;
            }
            // Gradually restore brightness once the grace period has passed.
            if self.factors[i] < 100 && time > self.dim_start_times[i] + 200_000 {
                self.factors[i] = self.factors[i].saturating_add(5);
            }
            // Randomly pick a new target color from the palette.
            let random_val = (time + (i as u64) * 7919) % 10;
            if random_val == 0 {
                let color_index = ((time + (i as u64) * 1234) % 4) as usize;
                self.targets[i] = sparkle_palette_color(color_index);
            }
            // Move the stored color one step toward the target, then apply
            // the brightness factor to what is displayed.
            let t = self.targets[i];
            let cur = data[i];
            let faded = Rgb::new(
                step_toward(cur.r, t.r),
                step_toward(cur.g, t.g),
                step_toward(cur.b, t.b),
            );
            let f = self.factors[i];
            data[i] = Rgb::new(
                apply_brightness(faded.r, f),
                apply_brightness(faded.g, f),
                apply_brightness(faded.b, f),
            );
            i = i + 1;
        }
        data[STAR_INDEX] = sparkle_star();
        self.tick = self.tick + 1;
        self.tick == SPARKLE_TOTAL_TICKS
    }
}

/// The palette as executable code, authored at full scale and passed
/// through the global brightness scaler.
pub fn sparkle_palette_color(idx: usize) -> (c: Rgb)
    requires
        idx < 4,
    ensures
        c == spec_sparkle_palette(idx as int),
{
    if idx == 0 {
        Rgb::new(scale_brightness(255), 0, 0)
    } else if idx == 1 {
        Rgb::new(0, scale_brightness(255), 0)
    } else if idx == 2 {
        Rgb::new(0, 0, scale_brightness(255))
    } else {
        Rgb::new(scale_brightness(255), scale_brightness(255), scale_brightness(255))
    }
}

/// A brightness factor stays a multiple of 5 between 20 and 100 across any
/// tick: it never exceeds full brightness and never drops below the dim
/// floor.
pub proof fn lemma_factor_in_range(f: u8, ds: u64, time: u64, i: int)
    requires
        20 <= f <= 100,
        f % 5 == 0,
    ensures
        20 <= spec_new_factor(f, ds, time, i) <= 100,
        spec_new_factor(f, ds, time, i) % 5 == 0,
{
}

/// Unless a fresh dim event starts this tick, the brightness factor never
/// decreases.
pub proof fn lemma_factor_monotonic(f: u8, ds: u64, time: u64, i: int)
    requires
        20 <= f <= 100,
        f % 5 == 0,
    ensures
        spec_dim_event(f, time, i) || spec_new_factor(f, ds, time, i) >= f,
{
}

/// Once the 200ms grace period since the dim start has elapsed, a factor
/// below full brightness rises by exactly 5 in one tick.
pub proof fn lemma_factor_recovery_step(f: u8, ds: u64, time: u64, i: int)
    requires
        20 <= f < 100,
        f % 5 == 0,
        time > ds + 200_000,
    ensures
        spec_new_factor(f, ds, time, i) == f + 5,
{
}

/// A dimmed factor reaches exactly full brightness after (100 - f) / 5
/// recovering ticks, so every dim event ends in a return to 100 within a
/// bounded number of ticks.
pub proof fn lemma_factor_recovers_to_full(f: u8)
    requires
        20 <= f <= 100,
        f % 5 == 0,
    ensures
        f + 5 * ((100 - f) / 5 as int) == 100,
{
    vstd::arithmetic::div_mod::lemma_fundamental_div_mod(100 - f, 5);
}

} // verus!
