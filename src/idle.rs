use vstd::prelude::*;

verus! {

/// Length of one wait interval, in milliseconds.
pub const POLL_INTERVAL_MS: u64 = 10;

/// Wait intervals in one second.
pub const INTERVALS_PER_SECOND: usize = 100;

/// The idle budget, in intervals, for a timeout given in seconds; a budget
/// too large for a `usize` is capped at the largest one.
pub fn budget_for_seconds(seconds: Option<usize>) -> (r: Option<usize>)
    ensures
        r == match seconds {
            Some(s) => Some(
                if s * INTERVALS_PER_SECOND <= usize::MAX {
                    (s * INTERVALS_PER_SECOND) as usize
                } else {
                    usize::MAX
                },
            ),
            None => None::<usize>,
        },
{
    match seconds {
        Some(s) => {
            if s > usize::MAX / INTERVALS_PER_SECOND {
                Some(usize::MAX)
            } else {
                Some(s * INTERVALS_PER_SECOND)
            }
        },
        None => None,
    }
}

/// Counts the wait intervals that passed without data, against an optional budget.
pub struct IdleClock {
    budget: Option<usize>,
    ticks: usize,
}

impl IdleClock {
    /// The number of intervals that may pass without data; `None` waits forever.
    pub closed spec fn budget(&self) -> Option<usize> {
        self.budget
    }

    /// The intervals counted so far.
    pub closed spec fn ticks(&self) -> nat {
        self.ticks as nat
    }

    /// Whether one more interval without data goes beyond the budget.
    pub open spec fn at_limit(&self) -> bool {
        match self.budget() {
            Some(b) => self.ticks() == b,
            None => false,
        }
    }

    /// The count after one more interval without data: it advances while a
    /// budget is set and not reached, and stands still otherwise.
    pub open spec fn ticks_after_tick(&self) -> nat {
        if self.budget() is Some && !self.at_limit() {
            self.ticks() + 1
        } else {
            self.ticks()
        }
    }

    pub closed spec fn wf(&self) -> bool {
        match self.budget {
            Some(b) => self.ticks <= b,
            None => self.ticks == 0,
        }
    }

    pub fn new(budget: Option<usize>) -> (r: IdleClock)
        ensures
            r.wf(),
            r.budget() == budget,
            r.ticks() == 0,
    {
        IdleClock { budget, ticks: 0 }
    }

    /// Starts a new wait under the same budget.
    pub fn restart(&mut self)
        requires
            old(self).wf(),
        ensures
            final(self).wf(),
            final(self).budget() == old(self).budget(),
            final(self).ticks() == 0,
    {
        self.ticks = 0;
    }

    /// Records one more interval without data. Returns true when that interval
    /// goes beyond the budget, that is, when the wait has to be given up.
    pub fn tick(&mut self) -> (expired: bool)
        requires
            old(self).wf(),
        ensures
            final(self).wf(),
            final(self).budget() == old(self).budget(),
            expired == old(self).at_limit(),
            final(self).ticks() == old(self).ticks_after_tick(),
    {
        match self.budget {
            Some(b) => {
                if self.ticks == b {
                    true
                } else {
                    self.ticks = self.ticks + 1;
                    false
                }
            },
            None => false,
        }
    }
}

} // verus!
