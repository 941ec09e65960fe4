//! Polled millisecond timers. A timer is a value holding a deadline; the
//! host reads its monotonic clock once per tick and hands the time in, so
//! expiry is a plain comparison, never a blocking wait.

use vstd::prelude::*;

verus! {

/// A deadline `wait_ms` milliseconds past the moment it was issued, polled
/// against the host clock.
#[derive(Clone, Copy, Debug, PartialEq, Eq, Structural)]
pub struct TimerMs {
    pub deadline_ms: u64,
    pub wait_ms: usize,
}

impl TimerMs {
    /// A timer that expires `wait_ms` milliseconds from `now_ms`.
    pub fn new(wait_ms: usize, now_ms: u64) -> (r: TimerMs)
        requires
            now_ms + wait_ms <= u64::MAX,
        ensures
            r.wait_ms == wait_ms,
            r.deadline_ms == now_ms + wait_ms,
    {
        TimerMs { deadline_ms: now_ms + wait_ms as u64, wait_ms }
    }

    /// The same period, re-issued from `now_ms`.
    pub fn reset(&self, now_ms: u64) -> (r: TimerMs)
        requires
            now_ms + self.wait_ms <= u64::MAX,
        ensures
            r.wait_ms == self.wait_ms,
            r.deadline_ms == now_ms + self.wait_ms,
    {
        TimerMs { deadline_ms: now_ms + self.wait_ms as u64, wait_ms: self.wait_ms }
    }

    /// Polls the timer: reports whether the deadline has passed, and if it
    /// has, re-arms the timer for one more period from `now_ms`.
    pub fn update(&mut self, now_ms: u64) -> (expired: bool)
        requires
            now_ms + old(self).wait_ms <= u64::MAX,
        ensures
            expired == (old(self).deadline_ms <= now_ms),
            expired ==> final(self).deadline_ms == now_ms + old(self).wait_ms
                && final(self).wait_ms == old(self).wait_ms,
            !expired ==> *final(self) == *old(self),
    {
        if self.deadline_ms <= now_ms {
            *self = Self::new(self.wait_ms, now_ms);
            true
        } else {
            false
        }
    }
}

} // verus!
