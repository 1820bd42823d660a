//! The animation sequencer for the tree strip: it runs the sparkle phase to
//! completion, then the rows phase, then the twinkle phase, and repeats
//! forever. Each step computes exactly one frame into the buffer, so the
//! driver loop emits exactly one transmission per tick; the buffer is not
//! reset across phase boundaries.

use vstd::prelude::*;

use crate::color::Rgb;
use crate::geometry::NUM_LEDS;
use crate::rows::{spec_rows_frame, RowsAnimation, ROWS_TICKS_PER_PASS, ROWS_TOTAL_TICKS};
use crate::sparkle::{SparkleAnimation, SPARKLE_TOTAL_TICKS};
use crate::time_in_range;
use crate::twinkle::{spec_twinkle_frame, TwinkleAnimation, TWINKLE_TOTAL_TICKS};

verus! {

/// Ticks in one full cycle: sparkle, then rows, then twinkle.
pub const CYCLE_TICKS: usize = 589;

/// One full cycle is exactly the three phases laid end to end.
pub proof fn lemma_cycle_ticks()
    ensures
        CYCLE_TICKS == SPARKLE_TOTAL_TICKS + ROWS_TOTAL_TICKS + TWINKLE_TOTAL_TICKS,
{
}

/// Which generator is currently active for the tree strip.
#[derive(Clone, Copy, PartialEq, Eq, Structural, Debug)]
pub enum Phase {
    Sparkle,
    Rows,
    Twinkle,
}

/// The tree strip's animation state: the active phase and the state of each
/// generator. The active generator's state is live; an inactive one is
/// reinitialized when its phase is entered again.
pub struct Sequencer {
    pub phase: Phase,
    pub sparkle: SparkleAnimation,
    pub rows: RowsAnimation,
    pub twinkle: TwinkleAnimation,
}

impl Sequencer {
    /// The sequencer is well formed when the sparkle state keeps its
    /// invariant and the active generator has ticks left to run.
    pub open spec fn wf(self) -> bool {
        &&& self.sparkle.wf()
        &&& match self.phase {
            Phase::Sparkle => !self.sparkle.is_done(),
            Phase::Rows => !self.rows.is_done(),
            Phase::Twinkle => !self.twinkle.is_done(),
        }
    }

    /// How many ticks of the current cycle have already been emitted.
    pub open spec fn position(self) -> int {
        match self.phase {
            Phase::Sparkle => self.sparkle.tick as int,
            Phase::Rows => SPARKLE_TOTAL_TICKS + self.rows.tick,
            Phase::Twinkle => SPARKLE_TOTAL_TICKS + ROWS_TOTAL_TICKS + self.twinkle.tick,
        }
    }

    /// A fresh sequencer, at the start of the sparkle phase, with the
    /// sparkle per-pixel state initialized as generator entry requires.
    pub fn new() -> (s: Sequencer)
        ensures
            s.wf(),
            s.phase == Phase::Sparkle,
            s.position() == 0,
            s.sparkle.spec_fresh(),
    {
        Sequencer {
            phase: Phase::Sparkle,
            sparkle: SparkleAnimation::new(),
            rows: RowsAnimation::new(),
            twinkle: TwinkleAnimation::new(),
        }
    }

    /// The fixed tick period of the active phase, in milliseconds.
    pub fn tick_period_ms(&self) -> (ms: u64)
        ensures
            self.phase == Phase::Sparkle ==> ms == 50,
            self.phase == Phase::Rows ==> ms == 300,
            self.phase == Phase::Twinkle ==> ms == 100,
    {
        match self.phase {
            Phase::Sparkle => 50,
            Phase::Rows => 300,
            Phase::Twinkle => 100,
        }
    }

    /// Compute the next frame of the cycle into `data`: exactly one frame
    /// per call, produced by the active generator; when a generator
    /// finishes, the next phase starts fresh on the following call, and
    /// after the twinkle phase the cycle wraps around.
    pub fn step(&mut self, data: &mut Vec<Rgb>, time: u64)
        requires
            old(self).wf(),
            old(data)@.len() == NUM_LEDS,
            time_in_range(time),
        ensures
            final(self).wf(),
            final(data)@.len() == NUM_LEDS,
            final(self).position() == (old(self).position() + 1) % (CYCLE_TICKS as int),
            old(self).phase == Phase::Sparkle ==> SparkleAnimation::spec_step_rel(
                old(self).sparkle,
                final(self).sparkle,
                old(data)@,
                final(data)@,
                time,
            ),
            old(self).phase == Phase::Rows ==> final(data)@ == spec_rows_frame(
                (old(self).rows.tick % ROWS_TICKS_PER_PASS) as int,
            ),
            old(self).phase == Phase::Twinkle ==> final(data)@ == spec_twinkle_frame(time),
            old(self).phase == Phase::Twinkle && final(self).phase == Phase::Sparkle
                ==> final(self).sparkle.spec_fresh(),
    {
        match self.phase {
            Phase::Sparkle => {
                let done = self.sparkle.step(data, time);
                if done {
                    self.phase = Phase::Rows;
                    self.rows = RowsAnimation::new();
                }
            },
            Phase::Rows => {
                let done = self.rows.step(data);
                if done {
                    self.phase = Phase::Twinkle;
                    self.twinkle = TwinkleAnimation::new();
                }
            },
            Phase::Twinkle => {
                let done = self.twinkle.step(data, time);
                if done {
                    self.phase = Phase::Sparkle;
                    self.sparkle = SparkleAnimation::new();
                }
            },
        }
    }
}

} // verus!
