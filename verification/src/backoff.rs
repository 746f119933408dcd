//! Exponential backoff between retry attempts.
//!
//! The delay for attempt `n` (zero-indexed) is `initial * 2^n`, capped at a
//! configured maximum.  Defaults: 100 ms initial, 5000 ms maximum.

use vstd::prelude::*;

verus! {

use vstd::arithmetic::power2::pow2;
use vstd::arithmetic::power2::lemma_pow2_adds;
use vstd::arithmetic::mul::lemma_mul_inequality;
use vstd::arithmetic::mul::lemma_mul_left_inequality;

/// Exponential backoff calculator: delay doubles with each attempt.
#[derive(Debug)]
pub struct ExponentialBackoff {
    pub initial_delay_ms: u64,
    pub max_delay_ms: u64,
    pub multiplier: u64,
}

/// The delay for a zero-indexed attempt: `initial * 2^attempt`, capped at
/// `max`.
pub open spec fn spec_delay(initial: u64, max: u64, attempt: nat) -> int {
    if initial * pow2(attempt) <= max {
        initial * pow2(attempt)
    } else {
        max as int
    }
}

/// Doubling never lowers the delay: `spec_delay` is non-decreasing in the
/// attempt number.
pub proof fn lemma_delay_non_decreasing(initial: u64, max: u64, n: nat, m: nat)
    requires
        n <= m,
    ensures
        spec_delay(initial, max, n) <= spec_delay(initial, max, m),
{
    vstd::arithmetic::power2::lemma_pow2_pos(n);
    vstd::arithmetic::power2::lemma_pow2_pos(m);
    vstd::arithmetic::power2::lemma_pow2_pos((m - n) as nat);
    lemma_pow2_adds(n, (m - n) as nat);
    assert(pow2(m) == pow2(n) * pow2((m - n) as nat));
    assert(pow2(n) <= pow2(m)) by {
        lemma_mul_left_inequality(pow2(n) as int, 1, pow2((m - n) as nat) as int);
    }
    if initial > 0 {
        lemma_mul_left_inequality(initial as int, pow2(n) as int, pow2(m) as int);
        assert(initial * pow2(n) <= initial * pow2(m));
    } else {
        assert(initial * pow2(n) == 0) by (nonlinear_arith)
            requires
                initial == 0,
        ;
        assert(initial * pow2(m) == 0) by (nonlinear_arith)
            requires
                initial == 0,
        ;
    }
}

/// The delay never exceeds the configured maximum.
pub proof fn lemma_delay_le_max(initial: u64, max: u64, attempt: nat)
    ensures
        spec_delay(initial, max, attempt) <= max,
{
}

impl ExponentialBackoff {
    /// Build a backoff policy with the given initial and maximum delay in
    /// milliseconds; the delay doubles with each attempt.
    pub fn new(initial_delay_ms: u64, max_delay_ms: u64) -> (r: ExponentialBackoff)
        ensures
            r.initial_delay_ms == initial_delay_ms,
            r.max_delay_ms == max_delay_ms,
            r.multiplier == 2,
    {
        ExponentialBackoff { initial_delay_ms, max_delay_ms, multiplier: 2 }
    }

    /// Calculate the delay for an attempt number (zero-indexed).
    pub fn delay_for_attempt(&self, attempt: u32) -> (r: u64)
        ensures
            r as int == spec_delay(self.initial_delay_ms, self.max_delay_ms, attempt as nat),
    {
        let initial = self.initial_delay_ms;
        let max = self.max_delay_ms;
        let mut d: u64 = initial;
        let mut k: u32 = 0;
        assert(pow2(0) == 1) by {
            vstd::arithmetic::power2::lemma2_to64();
        }
        if d > max {
            proof {
                lemma_delay_non_decreasing(initial, max, 0, attempt as nat);
                lemma_delay_le_max(initial, max, attempt as nat);
                assert(spec_delay(initial, max, 0) == max as int);
            }
            return max;
        }
        while k < attempt
            invariant
                initial == self.initial_delay_ms,
                max == self.max_delay_ms,
                k <= attempt,
                d as int == initial * pow2(k as nat),
                d <= max,
            decreases attempt - k,
        {
            if d > max / 2 {
                proof {
                    assert(2 * (d as int) > max);
                    lemma_pow2_adds(k as nat, 1);
                    assert(pow2(1) == 2) by {
                        vstd::arithmetic::power2::lemma2_to64();
                    }
                    assert(initial * pow2((k + 1) as nat) == initial * (pow2(k as nat) * 2));
                    vstd::arithmetic::mul::lemma_mul_is_associative(
                        initial as int,
                        pow2(k as nat) as int,
                        2,
                    );
                    assert(initial * pow2((k + 1) as nat) == 2 * (d as int));
                    lemma_delay_non_decreasing(initial, max, (k + 1) as nat, attempt as nat);
                    lemma_delay_le_max(initial, max, attempt as nat);
                    assert(spec_delay(initial, max, (k + 1) as nat) == max as int);
                    assert(spec_delay(initial, max, attempt as nat) == max as int);
                }
                return max;
            }
            proof {
                lemma_pow2_adds(k as nat, 1);
                assert(pow2(1) == 2) by {
                    vstd::arithmetic::power2::lemma2_to64();
                }
                vstd::arithmetic::mul::lemma_mul_is_associative(
                    initial as int,
                    pow2(k as nat) as int,
                    2,
                );
            }
            d = d * 2;
            k = k + 1;
        }
        d
    }
}

impl Default for ExponentialBackoff {
    /// The default policy: 100 ms initial delay, 5 s cap.
    fn default() -> (r: ExponentialBackoff)
        ensures
            r.initial_delay_ms == 100,
            r.max_delay_ms == 5000,
            r.multiplier == 2,
    {
        ExponentialBackoff::new(100, 5000)
    }
}

} // verus!
