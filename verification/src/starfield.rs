//! The starfield generator for the second strip: every tick, every pixel is
//! lit white or left dark by a deterministic hash of the current timestamp
//! and the pixel index. Unlike the tree generators this one never finishes:
//! its driver loop computes frames for the lifetime of the program.

use vstd::prelude::*;

use crate::color::{sky_white, spec_off, spec_sky_white, Rgb};
use crate::geometry::NUM_LEDS;
use crate::time_in_range;

verus! {

/// Whether pixel `i` of the starfield is lit at this timestamp.
pub open spec fn spec_starfield_lit(time: u64, i: int) -> bool {
    (time + i * 7919) % 5 == 0
}

/// The color of pixel `i` of a starfield frame at this timestamp.
pub open spec fn spec_starfield_pixel(time: u64, i: int) -> Rgb {
    if spec_starfield_lit(time, i) {
        spec_sky_white()
    } else {
        spec_off()
    }
}

/// The whole starfield frame: a pure function of the timestamp alone.
pub open spec fn spec_starfield_frame(time: u64) -> Seq<Rgb> {
    Seq::new(NUM_LEDS as nat, |i: int| spec_starfield_pixel(time, i))
}

/// Compute one starfield frame into `data`.
#[verifier::loop_isolation(false)]
pub fn starfield_frame(data: &mut Vec<Rgb>, time: u64)
    requires
        old(data)@.len() == NUM_LEDS,
        time_in_range(time),
    ensures
        final(data)@ == spec_starfield_frame(time),
{
    let star_color = sky_white();
    let off = Rgb::off();
    let mut i: usize = 0;
    while i < NUM_LEDS
        invariant
            i <= NUM_LEDS,
            data@.len() == NUM_LEDS,
            forall|j: int| 0 <= j < i ==> #[trigger] data@[j] == spec_starfield_pixel(time, j),
        decreases NUM_LEDS - i,
    {
        let random_val = (time + (i as u64) * 7919) % 5;
        data[i] = if random_val == 0 {
            star_color
        } else {
            off
        };
        i = i + 1;
    }
    proof {
        assert(data@ =~= spec_starfield_frame(time));
    }
}

} // verus!
