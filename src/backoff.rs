//! The exponential backoff delay, computed without overflow.

use vstd::arithmetic::power::{lemma0_pow, lemma_pow_increases, lemma_pow_positive, pow};
use vstd::prelude::*;

use crate::settings::RetrySettings;

verus! {

/// The delay in milliseconds before retry `k` under `s`, or `None` when
/// `backoff_multiplier^k` or the product with `initial_backoff_ms` exceeds
/// `u64::MAX`.
pub open spec fn backoff_delay(s: RetrySettings, k: nat) -> Option<u64> {
    let factor = pow(s.backoff_multiplier as int, k);
    if factor > u64::MAX || s.initial_backoff_ms * factor > u64::MAX {
        None
    } else {
        Some((s.initial_backoff_ms * factor) as u64)
    }
}

/// A power of a natural number is not negative.
pub proof fn lemma_pow_nonnegative(b: nat, e: nat)
    ensures
        pow(b as int, e) >= 0,
{
    if b > 0 {
        lemma_pow_positive(b as int, e);
    } else if e > 0 {
        lemma0_pow(e);
    } else {
        reveal(pow);
    }
}

/// Computes the delay before retry number `retry` (the first retry is 1).
pub fn delay_before_retry(settings: &RetrySettings, retry: u32) -> (r: Option<u64>)
    ensures
        r == backoff_delay(*settings, retry as nat),
{
    let base = settings.backoff_multiplier;
    let mut factor: u64 = 1;
    let mut i: u32 = 0;
    proof {
        reveal(pow);
    }
    while i < retry
        invariant
            i <= retry,
            base == settings.backoff_multiplier,
            factor as int == pow(base as int, i as nat),
        decreases retry - i,
    {
        proof {
            reveal(pow);
        }
        match factor.checked_mul(base) {
            None => {
                proof {
                    assert(pow(base as int, (i + 1) as nat) == base * pow(base as int, i as nat));
                    assert(base > 0) by (nonlinear_arith)
                        requires
                            factor * base > u64::MAX,
                    ;
                    lemma_pow_increases(base as nat, (i + 1) as nat, retry as nat);
                    assert(base * pow(base as int, i as nat) == factor * base) by (nonlinear_arith)
                        requires
                            factor as int == pow(base as int, i as nat),
                    ;
                }
                return None;
            },
            Some(next) => {
                proof {
                    assert(pow(base as int, (i + 1) as nat) == base * pow(base as int, i as nat));
                }
                factor = next;
            },
        }
        i = i + 1;
    }
    settings.initial_backoff_ms.checked_mul(factor)
}

} // verus!
