//! The retry policy for failed broker calls: retryable failures are tried
//! again after an exponentially growing delay, up to a number of retries and
//! under a delay ceiling. The growth factor is given in thousandths.

use vstd::prelude::*;
use crate::error::{VaultError, retryable};

verus! {

/// `x`, but at most `ceiling`.
pub open spec fn capped(x: int, ceiling: int) -> int {
    if x > ceiling {
        ceiling
    } else {
        x
    }
}

/// The delay before retry number `attempt` (counted from 0), in
/// milliseconds: `base` at first, then each delay is the previous one times
/// `multiplier_milli / 1000`, rounded down; every delay is at most `ceiling`.
pub open spec fn backoff_delay(attempt: nat, base: u64, multiplier_milli: u64, ceiling: u64) -> int
    decreases attempt,
{
    if attempt == 0 {
        capped(base as int, ceiling as int)
    } else {
        capped(
            backoff_delay((attempt - 1) as nat, base, multiplier_milli, ceiling) * multiplier_milli
                / 1000,
            ceiling as int,
        )
    }
}

fn backoff(attempt: u32, base: u64, multiplier_milli: u64, ceiling: u64) -> (r: u64)
    ensures
        r == backoff_delay(attempt as nat, base, multiplier_milli, ceiling),
{
    let mut d: u64 = if base > ceiling {
        ceiling
    } else {
        base
    };
    let mut i: u32 = 0;
    while i < attempt
        invariant
            i <= attempt,
            d == backoff_delay(i as nat, base, multiplier_milli, ceiling),
        decreases attempt - i,
    {
        assert((d as u128) * (multiplier_milli as u128) <= u64::MAX as u128 * u64::MAX as u128)
            by (nonlinear_arith);
        let next: u128 = (d as u128) * (multiplier_milli as u128) / 1000;
        d = if next > ceiling as u128 {
            ceiling
        } else {
            next as u64
        };
        i = i + 1;
    }
    d
}

/// The delay in milliseconds before trying a failed call again, or `None`
/// when it must not be retried: the error is not retryable (see
/// `VaultError::is_retryable`) or `attempt` retries have already been made
/// out of `max_retries`. The delays grow from `base_delay_ms` by a factor of
/// `multiplier_milli / 1000` per retry, up to `max_delay_ms` (see
/// `backoff_delay`).
pub fn next_retry_delay(
    error: &VaultError,
    attempt: u32,
    max_retries: u32,
    base_delay_ms: u64,
    multiplier_milli: u64,
    max_delay_ms: u64,
) -> (r: Option<u64>)
    ensures
        r is Some <==> (retryable(*error) && attempt < max_retries),
        r matches Some(d) ==> d == backoff_delay(
            attempt as nat,
            base_delay_ms,
            multiplier_milli,
            max_delay_ms,
        ),
{
    if !error.is_retryable() || attempt >= max_retries {
        return None;
    }
    Some(backoff(attempt, base_delay_ms, multiplier_milli, max_delay_ms))
}

} // verus!
