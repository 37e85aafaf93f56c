use vstd::prelude::*;

verus! {

/// Milliseconds in an hour and in a minute.
pub const HOUR_MS: u128 = 3_600_000;
pub const MINUTE_MS: u128 = 60_000;

/// Progress of a sweep: how many parameter sets are done out of how many, and the
/// running mean of the time one took, in milliseconds.
#[derive(Clone, Copy, PartialEq, Eq, Structural, Debug)]
pub struct Progress {
    pub total: u64,
    pub completed: u64,
    pub average_run_ms: u64,
}

/// The running mean after one more sample: `average + (sample - average) / n`, the
/// correction rounded toward zero.
pub open spec fn next_average(average: int, sample: int, n: int) -> int {
    if sample >= average {
        average + (sample - average) / n
    } else {
        average - (average - sample) / n
    }
}

impl Progress {
    /// A sweep over `total` parameter sets, none of them done.
    pub fn new(total: u64) -> (r: Progress)
        ensures
            r == (Progress { total, completed: 0, average_run_ms: 0 }),
    {
        Progress { total, completed: 0, average_run_ms: 0 }
    }

    /// Counts one more finished parameter set, which took `elapsed_ms`, into the mean.
    pub fn record_run(&mut self, elapsed_ms: u64)
        requires
            old(self).completed < u64::MAX,
        ensures
            final(self).total == old(self).total,
            final(self).completed == old(self).completed + 1,
            final(self).average_run_ms == next_average(
                old(self).average_run_ms as int,
                elapsed_ms as int,
                old(self).completed + 1,
            ),
    {
        let n = self.completed + 1;
        let average = self.average_run_ms;
        let next = if elapsed_ms >= average {
            average + (elapsed_ms - average) / n
        } else {
            average - (average - elapsed_ms) / n
        };
        self.completed = n;
        self.average_run_ms = next;
    }

    /// The time the sets that are left would take at the mean so far.
    pub fn remaining_ms(&self) -> (r: u128)
        ensures
            self.completed <= self.total ==> r == self.average_run_ms * (self.total - self.completed),
            self.completed > self.total ==> r == 0,
    {
        if self.completed > self.total {
            0
        } else {
            let left = (self.total - self.completed) as u128;
            assert(self.average_run_ms * left <= u64::MAX * u64::MAX) by (nonlinear_arith)
                requires
                    self.average_run_ms <= u64::MAX,
                    left <= u64::MAX,
            ;
            (self.average_run_ms as u128) * left
        }
    }

    /// The remaining time as whole hours and the whole minutes beyond them.
    pub fn remaining_hours_minutes(&self) -> (r: (u128, u128))
        ensures
            self.completed <= self.total ==> r == ({
                let rem = self.average_run_ms * (self.total - self.completed);
                ((rem / HOUR_MS as int) as u128, ((rem % HOUR_MS as int) / MINUTE_MS as int) as u128)
            }),
            self.completed > self.total ==> r == (0u128, 0u128),
    {
        let rem = self.remaining_ms();
        (rem / HOUR_MS, (rem % HOUR_MS) / MINUTE_MS)
    }
}

} // verus!
