//! The failure tracker: a counter of consecutive failed polls that decides
//! when the monitor must stop.

use vstd::prelude::*;

verus! {

/// Counts back-to-back failed polls. The count is reset on every successful
/// poll and incremented by exactly one on every failed poll; the monitor
/// stops once it reaches the configured limit.
pub struct FailureTracker {
    pub count: u64,
    pub limit: u64,
}

impl FailureTracker {
    /// A fresh tracker: no failures seen yet.
    pub fn new(limit: u64) -> (t: FailureTracker)
        ensures
            t.count == 0,
            t.limit == limit,
    {
        FailureTracker { count: 0, limit }
    }

    /// Called after every outcome classified as a success.
    pub fn reset(&mut self)
        ensures
            final(self).count == 0,
            final(self).limit == old(self).limit,
    {
        self.count = 0;
    }

    /// Called after every outcome classified as a failure.
    pub fn increment(&mut self)
        requires
            old(self).count < u64::MAX,
        ensures
            final(self).count == old(self).count + 1,
            final(self).limit == old(self).limit,
    {
        self.count = self.count + 1;
    }

    /// Whether the failure limit has been reached. The count only ever grows
    /// by one at a time from zero, so equality and "at least" coincide; "at
    /// least" is the defensive choice.
    pub fn threshold_reached(&self) -> (r: bool)
        ensures
            r == (self.count >= self.limit),
    {
        self.count >= self.limit
    }
}

} // verus!
