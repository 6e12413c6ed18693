//! Retry policy: how long a task waits after a failed attempt, and the
//! instant at which it becomes eligible again.
//!
//! Instants are whole seconds since the Unix epoch. The delay after a failure
//! doubles with every earlier failure and has no ceiling; an instant that the
//! calendar cannot represent is reported as `None`, never clamped.

use vstd::prelude::*;

verus! {

/// Seconds a task waits after its first failed attempt.
pub const BASE_RETRY_INTERVAL_SECS: u64 = 60;

/// The earliest instant the calendar represents: midnight on 1 January of the
/// year -262143, in seconds since the Unix epoch.
pub const MIN_TIMESTAMP: i64 = -8_334_601_228_800;

/// The latest whole second the calendar represents: 23:59:59 on 31 December of
/// the year 262142, in seconds since the Unix epoch.
pub const MAX_TIMESTAMP: i64 = 8_210_266_876_799;

/// The longest span, in seconds, that can be added to an instant in one step.
pub const MAX_SHIFT_SECS: i64 = 9_223_372_036_854_775;

/// Two to the power `n`.
pub open spec fn pow2(n: nat) -> nat
    decreases n,
{
    if n == 0 {
        1
    } else {
        2 * pow2((n - 1) as nat)
    }
}

/// The delay, in seconds, that follows a failure preceded by `retries` earlier
/// failures: the base interval doubled once per earlier failure.
pub open spec fn retry_delay(retries: nat) -> nat {
    BASE_RETRY_INTERVAL_SECS as nat * pow2(retries)
}

/// The instant at which a task that fails at `now`, after `retries` earlier
/// failures, becomes eligible again.
pub open spec fn next_eligible_at(now: int, retries: nat) -> int {
    now + retry_delay(retries)
}

/// Whether `instant` is one the calendar represents.
pub open spec fn representable(instant: int) -> bool {
    MIN_TIMESTAMP <= instant <= MAX_TIMESTAMP
}

/// Whether `now` can be moved by `delay` seconds: both ends are representable
/// and the span is one the calendar can add in one step.
pub open spec fn shift_in_range(now: int, delay: int) -> bool {
    &&& representable(now)
    &&& -MAX_SHIFT_SECS <= delay <= MAX_SHIFT_SECS
    &&& representable(now + delay)
}

/// Every power of two is positive.
pub proof fn lemma_pow2_positive(n: nat)
    ensures
        pow2(n) >= 1,
    decreases n,
{
    if n > 0 {
        lemma_pow2_positive((n - 1) as nat);
    }
}

/// A larger exponent never gives a smaller power of two.
pub proof fn lemma_pow2_monotonic(a: nat, b: nat)
    requires
        a <= b,
    ensures
        pow2(a) <= pow2(b),
    decreases b,
{
    if a < b {
        lemma_pow2_monotonic(a, (b - 1) as nat);
    }
}

/// The delay doubles with each failure.
pub proof fn lemma_retry_delay_doubles(retries: nat)
    ensures
        retry_delay(retries + 1) == 2 * retry_delay(retries),
        retry_delay(0) == BASE_RETRY_INTERVAL_SECS,
{
    assert(pow2(retries + 1) == 2 * pow2(retries));
    assert(pow2(0) == 1);
    assert(60 * (2 * pow2(retries)) == 2 * (60 * pow2(retries))) by (nonlinear_arith);
}

/// The delay never shrinks as failures accumulate.
pub proof fn lemma_retry_delay_monotonic(a: nat, b: nat)
    requires
        a <= b,
    ensures
        retry_delay(a) <= retry_delay(b),
{
    lemma_pow2_monotonic(a, b);
    assert(60 * pow2(a) <= 60 * pow2(b)) by (nonlinear_arith)
        requires
            pow2(a) <= pow2(b),
    ;
}

/// Backoff is strictly increasing: measured from the same `now`, one more
/// failure always pushes eligibility strictly further away.
pub proof fn lemma_backoff_strictly_increasing(now: int, retries: nat)
    ensures
        next_eligible_at(now, retries + 1) - now > next_eligible_at(now, retries) - now,
        next_eligible_at(now, retries) - now >= BASE_RETRY_INTERVAL_SECS,
{
    lemma_retry_delay_doubles(retries);
    lemma_pow2_positive(retries);
    assert(60 * pow2(retries) >= 60) by (nonlinear_arith)
        requires
            pow2(retries) >= 1,
    ;
}

/// The delay in seconds after a failure preceded by `n_retries` earlier
/// failures, or `None` when it exceeds what 64 bits hold.
pub fn retry_delay_secs(n_retries: u32) -> (delay: Option<u64>)
    ensures
        delay == if retry_delay(n_retries as nat) <= u64::MAX {
            Some(retry_delay(n_retries as nat) as u64)
        } else {
            None
        },
{
    let mut delay: u64 = BASE_RETRY_INTERVAL_SECS;
    let mut doubled: u32 = 0;
    proof {
        lemma_retry_delay_doubles(0);
    }
    while doubled < n_retries
        invariant
            doubled <= n_retries,
            delay == retry_delay(doubled as nat),
        decreases n_retries - doubled,
    {
        proof {
            lemma_retry_delay_doubles(doubled as nat);
        }
        match delay.checked_mul(2) {
            Some(next) => {
                delay = next;
            },
            None => {
                proof {
                    lemma_retry_delay_monotonic((doubled + 1) as nat, n_retries as nat);
                }
                return None;
            },
        }
        doubled = doubled + 1;
    }
    Some(delay)
}

/// Moves the instant `now` by `delay_secs` seconds with the calendar's own
/// checked addition (`chrono::DateTime::checked_add_signed`, between
/// `DateTime::from_timestamp` and `DateTime::timestamp`). The result is the
/// plain sum whenever both instants lie between the calendar's first and last
/// representable second and the span is at most `i64::MAX / 1000` seconds in
/// either direction, which is the bound of `TimeDelta::try_seconds`; otherwise
/// it is `None`.
#[verifier::external_body]
fn shift_timestamp(now: i64, delay_secs: i64) -> (shifted: Option<i64>)
    ensures
        shifted == if shift_in_range(now as int, delay_secs as int) {
            Some((now + delay_secs) as i64)
        } else {
            None
        },
{
    let start = chrono::DateTime::from_timestamp(now, 0)?;
    let delay = chrono::TimeDelta::try_seconds(delay_secs)?;
    Some(start.checked_add_signed(delay)?.timestamp())
}

/// The instant at which a task that fails at `now`, after `n_retries` earlier
/// failures, becomes eligible again: `now` plus the retry delay. `None` when
/// `now` or the result is an instant the calendar cannot represent.
pub fn next_eligible(now: i64, n_retries: u32) -> (eligible_at: Option<i64>)
    ensures
        eligible_at == if shift_in_range(now as int, retry_delay(n_retries as nat) as int) {
            Some(next_eligible_at(now as int, n_retries as nat) as i64)
        } else {
            None
        },
{
    match retry_delay_secs(n_retries) {
        Some(delay) => {
            if delay > MAX_SHIFT_SECS as u64 {
                None
            } else {
                shift_timestamp(now, delay as i64)
            }
        },
        None => None,
    }
}

} // verus!
