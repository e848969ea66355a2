//! Retry supervision for handler tasks.
//!
//! A failing handler is retried with exponential backoff: the base
//! interval on the first failure, doubling up to a capped maximum, reset
//! to the base after any success.  After a small fixed number of
//! consecutive failures the handler is marked permanently failed, and the
//! supervisor directs the caller to surface an error event instead of
//! retrying forever.  The supervisor only decides; the caller performs
//! the sleeping and respawning.

use vstd::prelude::*;

verus! {

/// The wait after the first failure, in milliseconds.
pub const BACKOFF_BASE_MS: u64 = 100;

/// The cap the doubling waits never pass, in milliseconds.
pub const BACKOFF_MAX_MS: u64 = 5_000;

/// Consecutive failures after which a handler is given up on.
pub const MAX_CONSECUTIVE_FAILURES: u32 = 5;

/// The wait that follows a given wait after one more failure: doubled,
/// capped at the maximum.
pub open spec fn next_wait(w: u64) -> u64 {
    if 2 * w <= BACKOFF_MAX_MS {
        (2 * w) as u64
    } else {
        BACKOFF_MAX_MS
    }
}

/// What the supervisor asks after a failure: wait this long and retry,
/// or stop retrying and surface an error event.
#[derive(Clone, Copy, PartialEq, Eq, Structural, Debug)]
pub enum SupervisorDirective {
    Retry(u64),
    GiveUp,
}

/// The per-handler backoff state.
#[derive(Clone, Copy, PartialEq, Eq, Structural, Debug)]
pub struct BackoffState {
    pub wait_ms: u64,
    pub consecutive_failures: u32,
    pub permanently_failed: bool,
}

impl BackoffState {
    /// The backoff invariant: the wait stays between base and cap, and a
    /// handler is permanently failed exactly when its failure budget is
    /// spent.
    pub open spec fn wf(&self) -> bool {
        &&& BACKOFF_BASE_MS <= self.wait_ms <= BACKOFF_MAX_MS
        &&& self.consecutive_failures <= MAX_CONSECUTIVE_FAILURES
        &&& (self.permanently_failed <==> self.consecutive_failures
            == MAX_CONSECUTIVE_FAILURES)
    }

    pub fn new() -> (r: Self)
        ensures
            r.wf(),
            r.wait_ms == BACKOFF_BASE_MS,
            r.consecutive_failures == 0,
            !r.permanently_failed,
    {
        BackoffState {
            wait_ms: BACKOFF_BASE_MS,
            consecutive_failures: 0,
            permanently_failed: false,
        }
    }

    /// Any success resets the interval to the base and the failure count
    /// to zero.
    pub fn record_success(&mut self)
        requires
            old(self).wf(),
            !old(self).permanently_failed,
        ensures
            final(self).wf(),
            final(self).wait_ms == BACKOFF_BASE_MS,
            final(self).consecutive_failures == 0,
            !final(self).permanently_failed,
    {
        self.wait_ms = BACKOFF_BASE_MS;
        self.consecutive_failures = 0;
    }

    /// One more failure: within the budget the caller is told to wait the
    /// current interval, and the next interval doubles up to the cap; at
    /// the budget the handler is marked permanently failed.
    pub fn record_failure(&mut self) -> (d: SupervisorDirective)
        requires
            old(self).wf(),
            !old(self).permanently_failed,
        ensures
            final(self).wf(),
            final(self).consecutive_failures == old(self).consecutive_failures + 1,
            if old(self).consecutive_failures + 1 == MAX_CONSECUTIVE_FAILURES {
                d == SupervisorDirective::GiveUp && final(self).permanently_failed && final(self).wait_ms == old(self).wait_ms
            } else {
                d == SupervisorDirective::Retry(old(self).wait_ms) && !final(self).permanently_failed && final(self).wait_ms == next_wait(old(self).wait_ms)
            },
    {
        self.consecutive_failures = self.consecutive_failures + 1;
        if self.consecutive_failures == MAX_CONSECUTIVE_FAILURES {
            self.permanently_failed = true;
            SupervisorDirective::GiveUp
        } else {
            let wait = self.wait_ms;
            if self.wait_ms <= BACKOFF_MAX_MS / 2 {
                self.wait_ms = self.wait_ms * 2;
            } else {
                self.wait_ms = BACKOFF_MAX_MS;
            }
            SupervisorDirective::Retry(wait)
        }
    }
}

/// Law: consecutive failures draw non-decreasing waits that never pass
/// the cap — for any in-range wait, three failures in a row wait `w`,
/// `next_wait(w)` and `next_wait(next_wait(w))`, each at least the one
/// before and at most the cap.  (That any success resets the wait to the
/// base interval is the contract of `record_success`.)
pub proof fn lemma_backoff_waits_monotone(w: u64)
    requires
        BACKOFF_BASE_MS <= w <= BACKOFF_MAX_MS,
    ensures
        w <= next_wait(w),
        next_wait(w) <= next_wait(next_wait(w)),
        next_wait(next_wait(w)) <= BACKOFF_MAX_MS,
{
}

} // verus!
