//! Per-target circuit breaker.
//!
//! A breaker tracks consecutive failures against one model.  It opens once
//! the failures reach a threshold and closes again (resetting the count)
//! when the configured timeout has elapsed past the last failure, or when a
//! success is recorded.

use vstd::prelude::*;

verus! {

use crate::clock::now_seconds;

/// Failure tracker with open/closed/half-open timing logic.
///
/// Time enters as an explicit reading in seconds so that the transitions can
/// be stated exactly; the `*_now` methods take the reading from the clock.
#[derive(Clone, Copy, Debug)]
pub struct CircuitBreaker {
    /// Number of consecutive failures.
    pub failures: u64,
    /// Clock reading at the last failure.
    pub last_failure: Option<u64>,
    /// Whether the circuit is open (calls should be skipped).
    pub open: bool,
    /// Seconds to wait after the last failure before allowing a retry.
    pub timeout_secs: u64,
    /// Consecutive failures at which the circuit opens.
    pub failure_threshold: u64,
}

/// The state after one recorded failure at time `now`: the count grows, the
/// failure time is remembered, and the circuit opens at the threshold.
pub open spec fn spec_after_failure(b: CircuitBreaker, now: u64) -> CircuitBreaker {
    let f = if b.failures < u64::MAX {
        (b.failures + 1) as u64
    } else {
        u64::MAX
    };
    CircuitBreaker {
        failures: f,
        last_failure: Some(now),
        open: b.open || f >= b.failure_threshold,
        ..b
    }
}

/// The state after `n` consecutive failures, all at time `now`.
pub open spec fn spec_after_failures(b: CircuitBreaker, now: u64, n: nat) -> CircuitBreaker
    decreases n,
{
    if n == 0 {
        b
    } else {
        spec_after_failure(spec_after_failures(b, now, (n - 1) as nat), now)
    }
}

/// Whether an open circuit has outlived its timeout at time `now`.
pub open spec fn spec_timeout_elapsed(b: CircuitBreaker, now: u64) -> bool {
    match b.last_failure {
        Some(t) => (if now >= t {
            now - t
        } else {
            0
        }) >= b.timeout_secs,
        None => false,
    }
}

impl CircuitBreaker {
    /// Create a closed breaker with no recorded failures.
    pub fn new(timeout_secs: u64, failure_threshold: u64) -> (r: CircuitBreaker)
        ensures
            r.failures == 0,
            r.last_failure is None,
            !r.open,
            r.timeout_secs == timeout_secs,
            r.failure_threshold == failure_threshold,
    {
        CircuitBreaker {
            failures: 0,
            last_failure: None,
            open: false,
            timeout_secs,
            failure_threshold,
        }
    }

    /// Check whether the circuit is open at the given clock reading.
    ///
    /// A closed circuit answers `false` and is left alone.  An open circuit
    /// whose timeout has elapsed since the last failure closes itself and
    /// resets the failure count, even without an explicit success.
    pub fn is_open_at(&mut self, now: u64) -> (r: bool)
        ensures
            r == (old(self).open && !spec_timeout_elapsed(*old(self), now)),
            !old(self).open ==> *final(self) == *old(self),
            old(self).open && spec_timeout_elapsed(*old(self), now) ==> *final(self)
                == (CircuitBreaker { open: false, failures: 0, ..*old(self) }),
            old(self).open && !spec_timeout_elapsed(*old(self), now) ==> *final(self) == *old(
                self,
            ),
    {
        if !self.open {
            return false;
        }
        match self.last_failure {
            Some(t) => {
                let elapsed = if now >= t {
                    now - t
                } else {
                    0
                };
                if elapsed >= self.timeout_secs {
                    self.open = false;
                    self.failures = 0;
                    false
                } else {
                    true
                }
            },
            None => true,
        }
    }

    /// Check whether the circuit is open now, by the wall clock.
    pub fn is_open(&mut self) -> (r: bool)
        ensures
            !old(self).open ==> !r && *final(self) == *old(self),
            r ==> old(self).open,
            final(self).open ==> old(self).open,
            final(self).failures <= old(self).failures,
            final(self).timeout_secs == old(self).timeout_secs,
            final(self).failure_threshold == old(self).failure_threshold,
    {
        let now = now_seconds();
        self.is_open_at(now)
    }

    /// Record a successful call: the circuit closes and the count resets.
    pub fn record_success(&mut self)
        ensures
            *final(self) == (CircuitBreaker {
                failures: 0,
                last_failure: None,
                open: false,
                ..*old(self)
            }),
    {
        self.failures = 0;
        self.open = false;
        self.last_failure = None;
    }

    /// Record a failed call at the given clock reading.
    pub fn record_failure_at(&mut self, now: u64)
        ensures
            *final(self) == spec_after_failure(*old(self), now),
    {
        if self.failures < u64::MAX {
            self.failures = self.failures + 1;
        }
        self.last_failure = Some(now);
        if self.failures >= self.failure_threshold {
            self.open = true;
        }
    }

    /// Record a failed call now, by the wall clock.
    pub fn record_failure(&mut self)
        ensures
            exists|now: u64| *final(self) == spec_after_failure(*old(self), now),
            final(self).failures >= old(self).failures,
            final(self).open == (old(self).open || final(self).failures
                >= old(self).failure_threshold),
            final(self).timeout_secs == old(self).timeout_secs,
            final(self).failure_threshold == old(self).failure_threshold,
    {
        let now = now_seconds();
        self.record_failure_at(now);
    }

    /// The current count of consecutive failures.
    pub fn failure_count(&self) -> (r: u64)
        ensures
            r == self.failures,
    {
        self.failures
    }
}

/// Starting from a fresh breaker, `n` consecutive failures leave the count at
/// exactly `n`, and the circuit is open precisely when `n` has reached the
/// threshold.
pub proof fn lemma_breaker_opens_at_threshold(b: CircuitBreaker, now: u64, n: nat)
    requires
        b.failures == 0,
        !b.open,
        n <= u64::MAX,
        b.failure_threshold >= 1,
    ensures
        spec_after_failures(b, now, n).failures == n,
        spec_after_failures(b, now, n).open <==> n >= b.failure_threshold,
        n >= 1 ==> spec_after_failures(b, now, n).last_failure == Some(now),
        spec_after_failures(b, now, n).timeout_secs == b.timeout_secs,
        spec_after_failures(b, now, n).failure_threshold == b.failure_threshold,
    decreases n,
{
    if n > 0 {
        lemma_breaker_opens_at_threshold(b, now, (n - 1) as nat);
    }
}

} // verus!
