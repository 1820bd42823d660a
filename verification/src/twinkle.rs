//! The twinkle generator: for a fixed number of ticks, every tree pixel is
//! lit green or left dark by a cheap deterministic hash of the current
//! timestamp and the pixel index, and the star twinkles yellow on its own
//! pattern. Identical timestamp sequences reproduce identical frames.

use vstd::prelude::*;

use crate::color::{spec_off, spec_star_yellow, spec_tree_green, star_yellow, tree_green, Rgb};
use crate::geometry::{NUM_LEDS, STAR_INDEX};
use crate::time_in_range;

verus! {

/// Total frames one twinkle phase emits.
pub const TWINKLE_TOTAL_TICKS: usize = 50;

/// Whether tree pixel `i` is lit at this timestamp.
pub open spec fn spec_twinkle_lit(time: u64, i: int) -> bool {
    (time + i * 7919) % 5 == 0
}

/// Whether the star is lit at this timestamp.
pub open spec fn spec_twinkle_star_lit(time: u64) -> bool {
    time % 3 == 0
}

/// The color of pixel `i` of a twinkle frame at this timestamp.
pub open spec fn spec_twinkle_pixel(time: u64, i: int) -> Rgb {
    if i == STAR_INDEX {
        if spec_twinkle_star_lit(time) {
            spec_star_yellow()
        } else {
            spec_off()
        }
    } else {
        if spec_twinkle_lit(time, i) {
            spec_tree_green()
        } else {
            spec_off()
        }
    }
}

/// The whole twinkle frame at this timestamp: a pure function of the
/// timestamp alone, which is what makes the animation reproducible.
pub open spec fn spec_twinkle_frame(time: u64) -> Seq<Rgb> {
    Seq::new(NUM_LEDS as nat, |i: int| spec_twinkle_pixel(time, i))
}

/// Tick counter of the twinkle phase.
pub struct TwinkleAnimation {
    pub tick: usize,
}

impl TwinkleAnimation {
    pub open spec fn is_done(self) -> bool {
        self.tick >= TWINKLE_TOTAL_TICKS
    }

    pub fn new() -> (s: TwinkleAnimation)
        ensures
            s.tick == 0,
    {
        TwinkleAnimation { tick: 0 }
    }

    /// Compute one twinkle frame into `data` and advance the tick; reports
    /// whether the phase has finished.
    #[verifier::loop_isolation(false)]
    pub fn step(&mut self, data: &mut Vec<Rgb>, time: u64) -> (done: bool)
        requires
            !old(self).is_done(),
            old(data)@.len() == NUM_LEDS,
            time_in_range(time),
        ensures
            final(data)@ == spec_twinkle_frame(time),
            final(self).tick == old(self).tick + 1,
            done == final(self).is_done(),
    {
        let green = tree_green();
        let star_color = star_yellow();
        let off = Rgb::off();
        let mut i: usize = 0;
        while i < NUM_LEDS - 1
            invariant
                i <= NUM_LEDS - 1,
                data@.len() == NUM_LEDS,
                forall|j: int| 0 <= j < i ==> #[trigger] data@[j] == spec_twinkle_pixel(time, j),
                forall|j: int| i <= j < NUM_LEDS ==> #[trigger] data@[j] == old(data)@[j],
            decreases NUM_LEDS - 1 - i,
        {
            let random_val = (time + (i as u64) * 7919) % 5;
            data[i] = if random_val == 0 {
                green
            } else {
                off
            };
            i = i + 1;
        }
        let star_random = time % 3;
        data[STAR_INDEX] = if star_random == 0 {
            star_color
        } else {
            off
        };
        proof {
            assert(data@ =~= spec_twinkle_frame(time));
        }
        self.tick = self.tick + 1;
        self.tick == TWINKLE_TOTAL_TICKS
    }
}

} // verus!
