use staking::address::Address;
use staking::errors::ErrorCode;
use staking::state::State;
use staking::utils::MS_PER_DAY;

const T: u64 = 1_700_000_000_000;

fn addr(byte: u8) -> Address {
    Address::new([byte; 32])
}

fn empty() -> State {
    State::new(4, addr(1), addr(2), addr(3))
}

#[test]
fn new_position_holds_its_key_and_nothing_else() {
    assert_eq!(
        empty(),
        State {
            idx: 4,
            user_sending: addr(1),
            mint_of_token_being_sent: addr(2),
            escrow_wallet: addr(3),
            amount_tokens: 0,
            last_deposit_timestamp: 0,
            withdrawal_request_timestamp: 0,
            unbounding_period_in_days: 0,
        }
    );
}

#[test]
fn position_takes_a_first_stake_and_a_top_up() {
    let mut state = empty();
    assert_eq!(state.deposit(100_000, T, 5), Ok(()));
    assert_eq!(
        state,
        State {
            amount_tokens: 100_000,
            last_deposit_timestamp: T,
            unbounding_period_in_days: 5,
            ..empty()
        }
    );
    assert_eq!(state.deposit(1, T + 365 * MS_PER_DAY, 8), Ok(()));
    assert_eq!(
        state,
        State {
            amount_tokens: 110_001,
            last_deposit_timestamp: T + 365 * MS_PER_DAY,
            unbounding_period_in_days: 8,
            ..empty()
        }
    );
}

#[test]
fn position_refuses_a_deposit_it_cannot_take() {
    let mut state = empty();
    state.deposit(u64::MAX, T, 5).unwrap();
    let before = state;
    assert_eq!(state.deposit(1, T, 5), Err(ErrorCode::ArithmeticError));
    assert_eq!(state, before);
    assert_eq!(state.deposit(0, T - 1, 5), Err(ErrorCode::ArithmeticError));
    assert_eq!(state, before);
    assert_eq!(state.deposit(0, T + MS_PER_DAY, 5), Err(ErrorCode::ArithmeticError));
    assert_eq!(state, before);
    assert_eq!(state.deposit(0, T + MS_PER_DAY - 1, 6), Ok(()));
    assert_eq!(
        state,
        State { last_deposit_timestamp: T + MS_PER_DAY - 1, unbounding_period_in_days: 6, ..before }
    );
}

#[test]
fn request_is_recorded_whatever_was_there() {
    let mut state = empty();
    state.request_withdrawal(T);
    assert_eq!(state, State { withdrawal_request_timestamp: T, ..empty() });
    state.request_withdrawal(T - 7);
    assert_eq!(state, State { withdrawal_request_timestamp: T - 7, ..empty() });
    state.request_withdrawal(0);
    assert_eq!(state, empty());
}

#[test]
fn funds_may_leave_from_the_day_the_unbonding_period_is_over() {
    let mut state = empty();
    state.deposit(1_000, T, 5).unwrap();
    assert_eq!(state.check_withdrawal(T + 100 * MS_PER_DAY), Err(ErrorCode::NoWithdrawalRequest));
    state.request_withdrawal(T + 10 * MS_PER_DAY);
    assert_eq!(state.check_withdrawal(T + 10 * MS_PER_DAY - 1), Err(ErrorCode::ArithmeticError));
    assert_eq!(state.check_withdrawal(T + 10 * MS_PER_DAY), Err(ErrorCode::UnboundingPeriod));
    assert_eq!(state.check_withdrawal(T + 14 * MS_PER_DAY), Err(ErrorCode::UnboundingPeriod));
    assert_eq!(state.check_withdrawal(T + 15 * MS_PER_DAY - 1), Err(ErrorCode::UnboundingPeriod));
    assert_eq!(state.check_withdrawal(T + 15 * MS_PER_DAY), Ok(()));
    assert_eq!(state.check_withdrawal(u64::MAX), Ok(()));
}

#[test]
fn payout_is_the_stake_with_its_reward_less_the_unbonding_days() {
    let mut state = empty();
    state.deposit(1_000, T, 5).unwrap();
    assert_eq!(state.payout_at(T + 15 * MS_PER_DAY), Ok(1_002));
    assert_eq!(state.payout_at(T + 5 * MS_PER_DAY), Ok(1_000));
    assert_eq!(state.payout_at(T + 5 * MS_PER_DAY - 1), Err(ErrorCode::ArithmeticError));
    assert_eq!(state.payout_at(T - 1), Err(ErrorCode::ArithmeticError));
    assert_eq!(empty().payout_at(T), Ok(0));
    // Asking what would be paid changes nothing.
    assert_eq!(state.amount_tokens, 1_000);
}

#[test]
fn paying_out_leaves_nothing_staked_and_the_request_in_place() {
    let mut state = empty();
    state.deposit(1_000, T, 5).unwrap();
    state.request_withdrawal(T + 1);
    let before = state;
    state.pay_out();
    assert_eq!(state, State { amount_tokens: 0, ..before });
    assert_eq!(state.withdrawal_request_timestamp, T + 1);
}
