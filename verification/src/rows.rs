//! The rows generator: three passes over the tree, each pass clearing the
//! strip, lighting the rows green from the bottom up one tick at a time,
//! then blinking the tree-top star on and off three times. Every tick emits
//! one frame; the frame contents are a pure function of the tick number.

use vstd::prelude::*;

use crate::color::{spec_off, spec_star_yellow, spec_tree_green, star_yellow, tree_green, Rgb};
use crate::geometry::{
    get_row_start_index,
    lemma_row_starts,
    spec_row_size,
    spec_row_start,
    NUM_LEDS,
    NUM_ROWS,
    STAR_INDEX,
};

verus! {

/// Ticks in one pass: one clear, six row fills, six star blinks.
pub const ROWS_TICKS_PER_PASS: usize = 13;

/// Number of passes before the generator returns control.
pub const ROWS_PASSES: usize = 3;

/// Total frames one rows phase emits.
pub const ROWS_TOTAL_TICKS: usize = 39;

/// How many rows are lit at tick `k` of a pass: none right after the
/// clear, one more per fill tick, all six during the star blinks.
pub open spec fn spec_rows_filled(k: int) -> int {
    if k <= 0 {
        0
    } else if k <= 6 {
        k
    } else {
        6
    }
}

/// The color of pixel `i` at tick `k` of a pass: lit green when its row has
/// been filled; the star lit yellow on every other of the six blink ticks.
pub open spec fn spec_rows_pixel(k: int, i: int) -> Rgb {
    if i == STAR_INDEX {
        if k >= 7 && (k - 7) % 2 == 0 {
            spec_star_yellow()
        } else {
            spec_off()
        }
    } else {
        if i < spec_row_start(spec_rows_filled(k)) {
            spec_tree_green()
        } else {
            spec_off()
        }
    }
}

/// The whole frame at tick `k` of a pass.
pub open spec fn spec_rows_frame(k: int) -> Seq<Rgb> {
    Seq::new(NUM_LEDS as nat, |i: int| spec_rows_pixel(k, i))
}

/// Tick counter of the rows phase.
pub struct RowsAnimation {
    pub tick: usize,
}

impl RowsAnimation {
    pub open spec fn is_done(self) -> bool {
        self.tick >= ROWS_TOTAL_TICKS
    }

    pub fn new() -> (s: RowsAnimation)
        ensures
            s.tick == 0,
    {
        RowsAnimation { tick: 0 }
    }

    /// Compute one rows frame into `data` and advance the tick; reports
    /// whether the three passes have finished.
    #[verifier::loop_isolation(false)]
    pub fn step(&mut self, data: &mut Vec<Rgb>) -> (done: bool)
        requires
            !old(self).is_done(),
            old(data)@.len() == NUM_LEDS,
        ensures
            final(data)@ == spec_rows_frame((old(self).tick % ROWS_TICKS_PER_PASS) as int),
            final(self).tick == old(self).tick + 1,
            done == final(self).is_done(),
    {
        let k = self.tick % ROWS_TICKS_PER_PASS;
        let filled: usize = if k == 0 {
            0
        } else if k <= 6 {
            k
        } else {
            6
        };
        let lit_limit = get_row_start_index(filled);
        let star_on = k >= 7 && (k - 7) % 2 == 0;
        let green = tree_green();
        let star_color = star_yellow();
        let off = Rgb::off();
        proof {
            lemma_row_starts();
        }
        let mut i: usize = 0;
        while i < NUM_LEDS
            invariant
                i <= NUM_LEDS,
                data@.len() == NUM_LEDS,
                forall|j: int| 0 <= j < i ==> #[trigger] data@[j] == spec_rows_pixel(k as int, j),
            decreases NUM_LEDS - i,
        {
            if i == STAR_INDEX {
                data[i] = if star_on {
                    star_color
                } else {
                    off
                };
            } else if i < lit_limit {
                data[i] = green;
            } else {
                data[i] = off;
            }
            i = i + 1;
        }
        proof {
            assert(data@ =~= spec_rows_frame(k as int));
        }
        self.tick = self.tick + 1;
        self.tick == ROWS_TOTAL_TICKS
    }
}

/// After the fill tick of row `r`, that row's pixels are exactly the lit
/// green range starting at its row start: every pixel of rows up to and
/// including `r` is green, every later non-star pixel is still off, and the
/// star is off.
pub proof fn lemma_rows_fill(r: int, i: int)
    requires
        0 <= r < NUM_ROWS - 1,
        0 <= i < NUM_LEDS,
    ensures
        spec_row_start(r) <= i < spec_row_start(r) + spec_row_size(r) ==> spec_rows_pixel(
            r + 1,
            i,
        ) == spec_tree_green(),
        spec_row_start(r) + spec_row_size(r) <= i < STAR_INDEX ==> spec_rows_pixel(r + 1, i)
            == spec_off(),
        i < spec_row_start(r) ==> spec_rows_pixel(r + 1, i) == spec_tree_green(),
        spec_rows_pixel(r + 1, STAR_INDEX as int) == spec_off(),
{
    lemma_row_starts();
}

} // verus!
