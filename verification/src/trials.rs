//! Trial bookkeeping for one algorithm/problem pair.
//!
//! A performance estimate is the running average of the best costs found by
//! a fixed number of independent optimizer runs.  The optimizer itself is
//! stochastic, works in floating point and runs outside the verified core;
//! what is verified here is the bookkeeping the harness must follow: run
//! exactly the configured number of trials, fold each successful best cost
//! into the running average under the next success index, skip a run that
//! found no best value without shifting that index, and report "no data"
//! exactly when the trial count was zero or every run failed — never a
//! spurious numeric zero.

use vstd::prelude::*;

verus! {

/// The state of one sequence of trials: how many runs are still owed and
/// how many have succeeded so far.
#[derive(Clone, Copy, PartialEq, Eq, Structural, Debug)]
pub struct TrialRunner {
    pub remaining: usize,
    pub successes: usize,
}

impl TrialRunner {
    /// Starts a fresh sequence of `trial_count` independent runs.
    pub fn new(trial_count: usize) -> (r: Self)
        ensures
            r.remaining == trial_count,
            r.successes == 0,
    {
        TrialRunner { remaining: trial_count, successes: 0 }
    }

    /// Whether another optimizer run is still owed.
    pub fn pending(&self) -> (b: bool)
        ensures
            b == (self.remaining > 0),
    {
        self.remaining > 0
    }

    /// The zero-based index the next successful value is folded in under:
    /// on a new value v the running average acc becomes
    /// (acc * i) / (i + 1) + v / (i + 1).  Failed runs never advance it, so
    /// real trials are never discounted by earlier failures.
    pub fn success_index(&self) -> (i: usize)
        ensures
            i == self.successes,
    {
        self.successes
    }

    /// Records a run that produced a best value and was folded into the
    /// average.
    pub fn record_success(&mut self)
        requires
            old(self).remaining > 0,
            old(self).successes < usize::MAX,
        ensures
            final(self).remaining == old(self).remaining - 1,
            final(self).successes == old(self).successes + 1,
    {
        self.remaining = self.remaining - 1;
        self.successes = self.successes + 1;
    }

    /// Records a run that found no best value: it is skipped, counting
    /// neither toward the average nor toward the success index.
    pub fn record_failure(&mut self)
        requires
            old(self).remaining > 0,
        ensures
            final(self).remaining == old(self).remaining - 1,
            final(self).successes == old(self).successes,
    {
        self.remaining = self.remaining - 1;
    }

    /// Once every trial has run: how many values the average rests on, or
    /// None when there is no data at all (a zero trial count, or every run
    /// failed).  Callers must treat None as "no data", not as a zero.
    pub fn outcome(&self) -> (r: Option<usize>)
        requires
            self.remaining == 0,
        ensures
            r matches Some(n) ==> n == self.successes && self.successes > 0,
            r is None <==> self.successes == 0,
    {
        if self.successes > 0 {
            Some(self.successes)
        } else {
            None
        }
    }
}

} // verus!
