//! Animation engine for a pair of addressable LED strips: a decorated tree
//! and a starfield. Frame generators compute, tick by tick, the full color
//! buffer for a strip; a sequencer cycles the tree strip through its
//! generators. Peripheral setup, the strip transport and the periodic timers
//! live outside this crate; everything here is pure computation over the
//! buffer, the generator state and a caller-supplied timestamp.

use vstd::prelude::*;

pub mod color;
pub mod geometry;
pub mod rows;
pub mod sequencer;
pub mod sparkle;
pub mod starfield;
pub mod twinkle;

verus! {

/// Headroom kept free at the top of the timestamp range: the largest
/// per-pixel hash offset plus the dim grace period stay well below it.
pub const TIME_MARGIN: u64 = 300_000;

/// Timestamps are microseconds since an arbitrary epoch. All per-pixel
/// hash offsets and the dim grace period fit inside `TIME_MARGIN`, so
/// every addition in the generators stays in range.
pub open spec fn time_in_range(t: u64) -> bool {
    t <= u64::MAX - TIME_MARGIN
}

} // verus!
