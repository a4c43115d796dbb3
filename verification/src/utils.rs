//! The reward model: flat simple interest of ten percent a year, counted in
//! whole days and truncated to whole token units.

use vstd::prelude::*;
use crate::errors::ErrorCode;

verus! {

/// Milliseconds in one day. Timestamps are milliseconds since the epoch.
pub const MS_PER_DAY: u64 = 86_400_000;

/// Yearly reward, in percent of the principal.
pub const ANNUAL_RATE_PERCENT: u64 = 10;

/// What a reward of one percent over one day is divided by: 365 days times 100 percent.
pub const RATE_DIVISOR: u64 = 36_500;

/// Whole days between two timestamps, `from` not after `to`.
pub open spec fn whole_days(from: int, to: int) -> int {
    (to - from) / (MS_PER_DAY as int)
}

/// The reward that `principal` earns in `days` days, truncated.
pub open spec fn reward(principal: int, days: int) -> int {
    principal * days * (ANNUAL_RATE_PERCENT as int) / (RATE_DIVISOR as int)
}

/// Principal plus the reward for the whole days from `last_deposit` to `now`,
/// less the `offset_days` that earn nothing.
pub open spec fn accrued(principal: int, last_deposit: int, now: int, offset_days: int) -> int {
    principal + reward(principal, whole_days(last_deposit, now) - offset_days)
}

/// The inputs on which an accrued amount exists: time does not run backwards,
/// the offset does not exceed the days elapsed, and the amount fits in 64 bits.
pub open spec fn accrual_defined(
    principal: int,
    last_deposit: int,
    now: int,
    offset_days: int,
) -> bool {
    &&& last_deposit <= now
    &&& offset_days <= whole_days(last_deposit, now)
    &&& accrued(principal, last_deposit, now, offset_days) <= u64::MAX
}

/// `previous_amount` with the reward it has earned since `last_deposit_timestamp`.
///
/// The days of `unbounding_period` earn nothing. Fails with `ArithmeticError`
/// exactly where `accrual_defined` does not hold.
pub fn calculate_rewards(
    previous_amount: u64,
    last_deposit_timestamp: u64,
    current_timestamp: u64,
    unbounding_period: u64,
) -> (total: Result<u64, ErrorCode>)
    ensures
        accrual_defined(
            previous_amount as int,
            last_deposit_timestamp as int,
            current_timestamp as int,
            unbounding_period as int,
        ) ==> total == Ok::<u64, ErrorCode>(
            accrued(
                previous_amount as int,
                last_deposit_timestamp as int,
                current_timestamp as int,
                unbounding_period as int,
            ) as u64,
        ),
        !accrual_defined(
            previous_amount as int,
            last_deposit_timestamp as int,
            current_timestamp as int,
            unbounding_period as int,
        ) ==> total == Err::<u64, ErrorCode>(ErrorCode::ArithmeticError),
{
    if current_timestamp < last_deposit_timestamp {
        return Err(ErrorCode::ArithmeticError);
    }
    let elapsed_days: u64 = (current_timestamp - last_deposit_timestamp) / MS_PER_DAY;
    if elapsed_days < unbounding_period {
        return Err(ErrorCode::ArithmeticError);
    }
    let total_days: u64 = elapsed_days - unbounding_period;
    assert(total_days <= 213_503_982_334);
    assert(previous_amount * total_days * 10 <= 0xffff_ffff_ffff_ffff * 213_503_982_334 * 10)
        by (nonlinear_arith)
        requires
            previous_amount <= 0xffff_ffff_ffff_ffff,
            total_days <= 213_503_982_334,
    ;
    assert(0 <= previous_amount * total_days) by (nonlinear_arith);
    let earned: u128 = (previous_amount as u128) * (total_days as u128) * (ANNUAL_RATE_PERCENT
        as u128) / (RATE_DIVISOR as u128);
    let total: u128 = previous_amount as u128 + earned;
    if total > u64::MAX as u128 {
        Err(ErrorCode::ArithmeticError)
    } else {
        Ok(total as u64)
    }
}

/// Where no time has passed, nothing is earned.
pub proof fn lemma_no_time_no_reward(principal: u64, now: u64)
    ensures
        accrual_defined(principal as int, now as int, now as int, 0),
        accrued(principal as int, now as int, now as int, 0) == principal,
{
    assert(principal * 0 * 10 == 0) by (nonlinear_arith);
}

/// An accrued amount is never less than the principal it started from.
pub proof fn lemma_accrued_at_least_principal(
    principal: int,
    last_deposit: int,
    now: int,
    offset_days: int,
)
    requires
        0 <= principal,
        last_deposit <= now,
        offset_days <= whole_days(last_deposit, now),
    ensures
        principal <= accrued(principal, last_deposit, now, offset_days),
{
    let days = whole_days(last_deposit, now) - offset_days;
    assert(0 <= principal * days * 10) by (nonlinear_arith)
        requires
            0 <= principal,
            0 <= days,
    ;
}

} // verus!
