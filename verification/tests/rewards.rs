use staking::errors::ErrorCode;
use staking::utils::{calculate_rewards, ANNUAL_RATE_PERCENT, MS_PER_DAY, RATE_DIVISOR};

#[test]
fn constants_are_a_day_and_ten_percent_a_year() {
    assert_eq!(MS_PER_DAY, 60 * 60 * 24 * 1000);
    assert_eq!(ANNUAL_RATE_PERCENT, 10);
    assert_eq!(RATE_DIVISOR, 365 * 100);
}

#[test]
fn one_year_earns_ten_percent() {
    for t0 in [0u64, 1, 1_700_000_000_000, 86_399_999] {
        assert_eq!(calculate_rewards(100_000, t0, t0 + 365 * MS_PER_DAY, 0), Ok(110_000));
    }
}

#[test]
fn no_time_no_reward() {
    for principal in [0u64, 1, 999, 100_000, u64::MAX] {
        for t in [0u64, 1, 1_700_000_000_000, u64::MAX] {
            assert_eq!(calculate_rewards(principal, t, t, 0), Ok(principal));
        }
    }
}

#[test]
fn part_of_a_day_earns_nothing() {
    assert_eq!(calculate_rewards(1_000_000, 5, 5 + MS_PER_DAY - 1, 0), Ok(1_000_000));
    assert_eq!(calculate_rewards(1_000_000, 5, 5 + MS_PER_DAY, 0), Ok(1_000_273));
    assert_eq!(calculate_rewards(1_000_000, 5, 5 + 2 * MS_PER_DAY - 1, 0), Ok(1_000_273));
}

#[test]
fn reward_is_truncated() {
    // 36_500 units earn exactly 10 in a day; one unit less earns 9.99.., which is 9.
    assert_eq!(calculate_rewards(36_500, 0, MS_PER_DAY, 0), Ok(36_510));
    assert_eq!(calculate_rewards(36_499, 0, MS_PER_DAY, 0), Ok(36_508));
    assert_eq!(calculate_rewards(3_649, 0, MS_PER_DAY, 0), Ok(3_649));
    assert_eq!(calculate_rewards(3_650, 0, MS_PER_DAY, 0), Ok(3_651));
}

#[test]
fn unbonding_days_earn_nothing() {
    // 15 days elapsed, 5 of them unbonding: 1000 * 10 * 10 / 36500 = 2.
    assert_eq!(calculate_rewards(1_000, 7, 7 + 15 * MS_PER_DAY, 5), Ok(1_002));
    assert_eq!(calculate_rewards(1_000, 7, 7 + 15 * MS_PER_DAY, 15), Ok(1_000));
    assert_eq!(calculate_rewards(100_000, 0, 370 * MS_PER_DAY, 5), Ok(110_000));
}

#[test]
fn time_running_backwards_is_refused() {
    assert_eq!(calculate_rewards(1_000, 10, 9, 0), Err(ErrorCode::ArithmeticError));
    assert_eq!(calculate_rewards(0, u64::MAX, 0, 0), Err(ErrorCode::ArithmeticError));
}

#[test]
fn offset_beyond_the_days_elapsed_is_refused() {
    assert_eq!(calculate_rewards(1_000, 0, 4 * MS_PER_DAY, 5), Err(ErrorCode::ArithmeticError));
    assert_eq!(
        calculate_rewards(1_000, 0, 5 * MS_PER_DAY - 1, 5),
        Err(ErrorCode::ArithmeticError)
    );
    assert_eq!(calculate_rewards(1_000, 0, 5 * MS_PER_DAY, 5), Ok(1_000));
}

#[test]
fn amount_beyond_64_bits_is_refused() {
    assert_eq!(
        calculate_rewards(u64::MAX, 0, 365 * MS_PER_DAY, 0),
        Err(ErrorCode::ArithmeticError)
    );
    assert_eq!(calculate_rewards(u64::MAX, 0, MS_PER_DAY, 0), Err(ErrorCode::ArithmeticError));
    // u64::MAX / 36_500 * 10 is the reward of a day on this principal; just below the limit.
    let principal = u64::MAX - u64::MAX / 3_650 - 1;
    let earned = (principal as u128 * 10 / 36_500) as u64;
    assert_eq!(calculate_rewards(principal, 0, MS_PER_DAY, 0), Ok(principal + earned));
}

#[test]
fn large_products_do_not_wrap() {
    let principal: u64 = 1 << 60;
    let days: u64 = 100;
    let expected = principal as u128 + principal as u128 * days as u128 * 10 / 36_500;
    assert!(expected <= u64::MAX as u128);
    assert_eq!(calculate_rewards(principal, 0, days * MS_PER_DAY, 0), Ok(expected as u64));
    // The longest span that 64 bits of milliseconds can hold.
    let all_days = u64::MAX / MS_PER_DAY;
    let expected = 1_000u128 + 1_000u128 * all_days as u128 * 10 / 36_500;
    assert_eq!(calculate_rewards(1_000, 0, u64::MAX, 0), Ok(expected as u64));
}

#[test]
fn errors_have_their_messages() {
    assert_eq!(
        ErrorCode::UnboundingPeriod.message(),
        "You are still in unbounding period. Please wait for your unbounding period to get over before withdrawing the funds."
    );
    assert_eq!(
        ErrorCode::NoWithdrawalRequest.message(),
        "You have not requested for withdrawal. You have to request for withdrawal before withdrawing the funds."
    );
    let all = [
        ErrorCode::UnboundingPeriod,
        ErrorCode::NoWithdrawalRequest,
        ErrorCode::Unauthorized,
        ErrorCode::AddressMismatch,
        ErrorCode::AlreadyExists,
        ErrorCode::ArithmeticError,
    ];
    for (i, a) in all.iter().enumerate() {
        assert!(!a.message().is_empty());
        for b in all.iter().skip(i + 1) {
            assert_ne!(a, b);
            assert_ne!(a.message(), b.message());
        }
    }
}
