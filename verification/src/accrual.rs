//! The accrual formula: how much of a deposit has vested by a given
//! timestamp, independent of how much has been withdrawn.
//!
//! Vesting always measures elapsed time from `start_time`, not from
//! `cliff_time`: the cliff only gates visibility of the already-accruing
//! balance, it does not delay the clock. Capping elapsed time at `end_time`
//! makes the function total and monotone for all `now`; capping the result
//! at `deposit_amount` absorbs any rounding slack from the creation-time
//! inequality check.

use vstd::prelude::*;

use crate::types::valid_stream;
use crate::types::Stream;

verus! {

/// The mathematical accrual function: zero before the cliff, otherwise the
/// linear amount `rate * (min(now, end) - start)` capped at the deposit.
pub open spec fn accrued_spec(s: Stream, now: u64) -> int {
    if now < s.cliff_time {
        0
    } else {
        let capped: int = if now <= s.end_time {
            now as int
        } else {
            s.end_time as int
        };
        let elapsed: int = if capped >= s.start_time as int {
            capped - s.start_time as int
        } else {
            0
        };
        let linear: int = elapsed * (s.rate_per_second as int);
        if linear <= s.deposit_amount as int {
            linear
        } else {
            s.deposit_amount as int
        }
    }
}

/// Computes the accrued amount of a stream record at time `now`. A pure,
/// read-only function: no authorization, no side effects. The saturating
/// multiplication of the linear term never changes the result, because the
/// deposit cap is itself below the saturation bound.
pub fn accrued_amount(s: &Stream, now: u64) -> (r: i128)
    requires
        valid_stream(*s),
    ensures
        r as int == accrued_spec(*s, now),
        0 <= r,
        r <= s.deposit_amount,
{
    if now < s.cliff_time {
        return 0;
    }
    let capped: u64 = if now <= s.end_time {
        now
    } else {
        s.end_time
    };
    let elapsed_secs: u64 = capped - s.start_time;
    let elapsed: i128 = elapsed_secs as i128;
    let linear: i128 = match elapsed.checked_mul(s.rate_per_second) {
        Some(v) => v,
        None => i128::MAX,
    };
    proof {
        lemma_mul_nonneg(elapsed as int, s.rate_per_second as int);
    }
    if linear <= s.deposit_amount {
        linear
    } else {
        s.deposit_amount
    }
}

proof fn lemma_mul_nonneg(x: int, y: int)
    requires
        x >= 0,
        y >= 0,
    ensures
        x * y >= 0,
{
    assert(x * y >= 0) by (nonlinear_arith)
        requires
            x >= 0,
            y >= 0,
    ;
}

proof fn lemma_mul_mono_left(x1: int, x2: int, y: int)
    requires
        x1 <= x2,
        y >= 0,
    ensures
        x1 * y <= x2 * y,
{
    assert(x1 * y <= x2 * y) by (nonlinear_arith)
        requires
            x1 <= x2,
            y >= 0,
    ;
}

/// The accrued amount is always within `[0, deposit_amount]`.
pub proof fn lemma_accrued_bounds(s: Stream, now: u64)
    requires
        valid_stream(s),
    ensures
        0 <= accrued_spec(s, now),
        accrued_spec(s, now) <= s.deposit_amount as int,
{
    if now >= s.cliff_time {
        let capped: int = if now <= s.end_time {
            now as int
        } else {
            s.end_time as int
        };
        let elapsed: int = if capped >= s.start_time as int {
            capped - s.start_time as int
        } else {
            0
        };
        lemma_mul_nonneg(elapsed, s.rate_per_second as int);
    }
}

/// At `now = start_time` nothing has accrued yet: the accrual is zero.
pub proof fn lemma_accrued_at_start(s: Stream)
    requires
        valid_stream(s),
    ensures
        accrued_spec(s, s.start_time) == 0,
{
    if s.start_time >= s.cliff_time {
        assert(0 * (s.rate_per_second as int) == 0);
    }
}

/// From `end_time` on, the accrual is frozen at the full linear amount
/// `rate * (end - start)`; when the deposit equals that amount, exactly the
/// whole deposit has accrued.
pub proof fn lemma_accrued_at_end(s: Stream, now: u64)
    requires
        valid_stream(s),
        now >= s.end_time,
    ensures
        accrued_spec(s, now) == s.rate_per_second as int * (s.end_time as int
            - s.start_time as int),
        s.deposit_amount as int == s.rate_per_second as int * (s.end_time as int
            - s.start_time as int) ==> accrued_spec(s, now) == s.deposit_amount as int,
{
    let elapsed: int = s.end_time as int - s.start_time as int;
    assert(elapsed * (s.rate_per_second as int) == s.rate_per_second as int * elapsed);
}

/// The accrual is monotonically non-decreasing in `now` for a fixed record.
pub proof fn lemma_accrued_monotonic(s: Stream, t1: u64, t2: u64)
    requires
        valid_stream(s),
        t1 <= t2,
    ensures
        accrued_spec(s, t1) <= accrued_spec(s, t2),
{
    lemma_accrued_bounds(s, t1);
    lemma_accrued_bounds(s, t2);
    if t1 >= s.cliff_time {
        let capped1: int = if t1 <= s.end_time {
            t1 as int
        } else {
            s.end_time as int
        };
        let capped2: int = if t2 <= s.end_time {
            t2 as int
        } else {
            s.end_time as int
        };
        let elapsed1: int = if capped1 >= s.start_time as int {
            capped1 - s.start_time as int
        } else {
            0
        };
        let elapsed2: int = if capped2 >= s.start_time as int {
            capped2 - s.start_time as int
        } else {
            0
        };
        lemma_mul_mono_left(elapsed1, elapsed2, s.rate_per_second as int);
    }
}

} // verus!
