//! Correct/incorrect tallies.
//!
//! A `Statistics` value is a pair of counters. Counters never decrease;
//! an increment saturates at `u32::MAX` instead of wrapping, so recording
//! an outcome can never overflow.

use vstd::prelude::*;

verus! {

/// One more than `x`, except at the top of the range, where the counter
/// stays put instead of wrapping.
pub open spec fn sat_inc(x: u32) -> u32 {
    if x == u32::MAX {
        x
    } else {
        (x + 1) as u32
    }
}

/// A correct/incorrect tally.
#[derive(Clone, Copy, PartialEq, Eq, Structural, Debug)]
pub struct Statistics {
    pub correct: u32,
    pub incorrect: u32,
}

impl Statistics {
    /// The tally of a record that has seen no submissions.
    pub open spec fn zero_spec() -> Statistics {
        Statistics { correct: 0, incorrect: 0 }
    }

    /// The tally after one more correct submission.
    pub open spec fn bump_correct(self) -> Statistics {
        Statistics { correct: sat_inc(self.correct), incorrect: self.incorrect }
    }

    /// The tally after one more incorrect submission.
    pub open spec fn bump_incorrect(self) -> Statistics {
        Statistics { correct: self.correct, incorrect: sat_inc(self.incorrect) }
    }

    /// The tally after a submission with the given outcome.
    pub open spec fn bump(self, accepted: bool) -> Statistics {
        if accepted {
            self.bump_correct()
        } else {
            self.bump_incorrect()
        }
    }

    pub fn zero() -> (r: Statistics)
        ensures
            r == Self::zero_spec(),
    {
        Statistics { correct: 0, incorrect: 0 }
    }

    /// Record one correct submission.
    pub fn record_correct(&mut self)
        ensures
            *final(self) == old(self).bump_correct(),
    {
        if self.correct < u32::MAX {
            self.correct = self.correct + 1;
        }
    }

    /// Record one incorrect submission.
    pub fn record_incorrect(&mut self)
        ensures
            *final(self) == old(self).bump_incorrect(),
    {
        if self.incorrect < u32::MAX {
            self.incorrect = self.incorrect + 1;
        }
    }

    /// Record a submission with the given outcome.
    pub fn record(&mut self, accepted: bool)
        ensures
            *final(self) == old(self).bump(accepted),
    {
        if accepted {
            self.record_correct();
        } else {
            self.record_incorrect();
        }
    }
}

} // verus!
