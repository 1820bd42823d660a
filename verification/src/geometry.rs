//! Geometry of the tree strip: how the linear pixel buffer maps to the
//! logical rows of the tree shape. The row sizes are a fixed sequence whose
//! sum is the buffer length; the last row of size one is the tree-top star.

use vstd::prelude::*;

verus! {

/// Number of LEDs on each strip.
pub const NUM_LEDS: usize = 22;

/// Number of logical rows, the final single-pixel star row included.
pub const NUM_ROWS: usize = 7;

/// Index of the star pixel, the last one in the buffer.
pub const STAR_INDEX: usize = 21;

/// Size of logical row `r`, for `r` in `[0, NUM_ROWS)`; zero outside that
/// range so the function is total.
pub open spec fn spec_row_size(r: int) -> int {
    if r == 0 {
        6
    } else if r == 1 {
        5
    } else if r == 2 {
        4
    } else if r == 3 {
        3
    } else if r == 4 {
        2
    } else if r == 5 {
        1
    } else if r == 6 {
        1
    } else {
        0
    }
}

/// Index of the first pixel of row `r`: the sum of the sizes of all rows
/// before it.
pub open spec fn spec_row_start(r: int) -> int
    decreases r,
{
    if r <= 0 {
        0
    } else {
        spec_row_start(r - 1) + spec_row_size(r - 1)
    }
}

/// The concrete row starts, and that the rows exactly partition the buffer:
/// row 0 begins at index 0, each row begins where the one before it ends,
/// and the sum of all row sizes is the buffer length.
pub proof fn lemma_row_starts()
    ensures
        spec_row_start(0) == 0,
        spec_row_start(1) == 6,
        spec_row_start(2) == 11,
        spec_row_start(3) == 15,
        spec_row_start(4) == 18,
        spec_row_start(5) == 20,
        spec_row_start(6) == 21,
        spec_row_start(7) == NUM_LEDS,
        forall|r: int| 0 <= r < NUM_ROWS ==> #[trigger] spec_row_start(r + 1) == spec_row_start(
            r,
        ) + spec_row_size(r),
{
    reveal_with_fuel(spec_row_start, 8);
}

/// Size of logical row `row`.
pub fn row_size(row: usize) -> (s: usize)
    requires
        row < NUM_ROWS,
    ensures
        s == spec_row_size(row as int),
{
    if row == 0 {
        6
    } else if row == 1 {
        5
    } else if row == 2 {
        4
    } else if row == 3 {
        3
    } else if row == 4 {
        2
    } else {
        1
    }
}

/// Index of the first pixel in logical row `row`: the sum of the sizes of
/// the rows before it. At `row == NUM_ROWS` that sum is the whole buffer
/// length.
pub fn get_row_start_index(row: usize) -> (start: usize)
    requires
        row <= NUM_ROWS,
    ensures
        start == spec_row_start(row as int),
{
    proof {
        lemma_row_starts();
    }
    let mut start: usize = 0;
    let mut i: usize = 0;
    while i < row
        invariant
            i <= row,
            row <= NUM_ROWS,
            start == spec_row_start(i as int),
            start <= NUM_LEDS,
        decreases row - i,
    {
        proof {
            lemma_row_starts();
        }
        start = start + row_size(i);
        i = i + 1;
    }
    start
}

} // verus!
