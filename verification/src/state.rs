//! The position record and the transitions that the operations make on it.

use vstd::prelude::*;
use crate::address::Address;
use crate::errors::ErrorCode;
use crate::utils::{accrual_defined, accrued, calculate_rewards, whole_days, MS_PER_DAY};

verus! {

/// One staking position: the funds that one owner has locked in one asset
/// under one application index.
#[derive(Clone, Copy, Debug, PartialEq, Eq)]
pub struct State {
    /// The application index, part of the position's key.
    pub idx: u64,
    /// The owner, part of the position's key.
    pub user_sending: Address,
    /// The asset staked, part of the position's key.
    pub mint_of_token_being_sent: Address,
    /// The escrow account that holds the funds, fixed when the position is opened.
    pub escrow_wallet: Address,
    /// Principal and accrued reward, in the asset's smallest unit.
    pub amount_tokens: u64,
    /// When funds were last deposited, in milliseconds.
    pub last_deposit_timestamp: u64,
    /// When withdrawal was last requested, in milliseconds; 0 for never.
    pub withdrawal_request_timestamp: u64,
    /// The days that a withdrawal request has to wait.
    pub unbounding_period_in_days: u64,
}

impl State {
    /// The record of a position that has just been opened: its key and its
    /// escrow, and nothing staked.
    pub open spec fn opened(idx: u64, owner: Address, asset: Address, escrow: Address) -> State {
        State {
            idx,
            user_sending: owner,
            mint_of_token_being_sent: asset,
            escrow_wallet: escrow,
            amount_tokens: 0,
            last_deposit_timestamp: 0,
            withdrawal_request_timestamp: 0,
            unbounding_period_in_days: 0,
        }
    }

    /// What the position holds once `amount` is added at `now`: the amount
    /// alone on an empty position, else the amount and what was staked, with
    /// the reward earned since the last deposit.
    pub open spec fn staked_after_deposit(self, amount: u64, now: u64) -> int {
        if self.amount_tokens == 0 {
            amount as int
        } else {
            amount + accrued(
                self.amount_tokens as int,
                self.last_deposit_timestamp as int,
                now as int,
                0,
            )
        }
    }

    /// A deposit can be taken: on a position that holds funds, `now` is not
    /// before the last deposit; and the new balance fits in 64 bits.
    pub open spec fn deposit_defined(self, amount: u64, now: u64) -> bool {
        &&& self.amount_tokens != 0 ==> self.last_deposit_timestamp <= now
        &&& self.staked_after_deposit(amount, now) <= u64::MAX
    }

    /// The position after a deposit of `amount` at `now` under the unbonding
    /// term `unbounding_period`. A pending withdrawal request stays as it is.
    pub open spec fn after_deposit(self, amount: u64, now: u64, unbounding_period: u64) -> State {
        State {
            amount_tokens: self.staked_after_deposit(amount, now) as u64,
            last_deposit_timestamp: now,
            unbounding_period_in_days: unbounding_period,
            ..self
        }
    }

    /// The position after withdrawal was requested at `now`.
    pub open spec fn after_request(self, now: u64) -> State {
        State { withdrawal_request_timestamp: now, ..self }
    }

    /// Whether funds may leave at `now`: a withdrawal has been requested, not
    /// after `now`, and the whole days since then cover the unbonding period.
    pub open spec fn withdrawal_check(self, now: u64) -> Result<(), ErrorCode> {
        if self.withdrawal_request_timestamp == 0 {
            Err(ErrorCode::NoWithdrawalRequest)
        } else if now < self.withdrawal_request_timestamp {
            Err(ErrorCode::ArithmeticError)
        } else if whole_days(self.withdrawal_request_timestamp as int, now as int)
            < self.unbounding_period_in_days {
            Err(ErrorCode::UnboundingPeriod)
        } else {
            Ok(())
        }
    }

    /// What a withdrawal at `now` pays out: what is staked and its reward
    /// since the last deposit, the days of the unbonding period left out.
    pub open spec fn payout(self, now: u64) -> int {
        accrued(
            self.amount_tokens as int,
            self.last_deposit_timestamp as int,
            now as int,
            self.unbounding_period_in_days as int,
        )
    }

    /// The payout at `now` exists.
    pub open spec fn payout_defined(self, now: u64) -> bool {
        accrual_defined(
            self.amount_tokens as int,
            self.last_deposit_timestamp as int,
            now as int,
            self.unbounding_period_in_days as int,
        )
    }

    /// The position after its funds were paid out. The request that allowed
    /// it stays on the record.
    pub open spec fn after_withdraw(self) -> State {
        State { amount_tokens: 0, ..self }
    }

    /// The record of a position that is being opened.
    pub fn new(idx: u64, owner: Address, asset: Address, escrow: Address) -> (state: State)
        ensures
            state == State::opened(idx, owner, asset, escrow),
    {
        State {
            idx,
            user_sending: owner,
            mint_of_token_being_sent: asset,
            escrow_wallet: escrow,
            amount_tokens: 0,
            last_deposit_timestamp: 0,
            withdrawal_request_timestamp: 0,
            unbounding_period_in_days: 0,
        }
    }

    /// Takes a deposit of `amount` at `now` under the unbonding term
    /// `unbounding_period`: a first stake on an empty position, else a top-up
    /// that first settles the reward earned since the last deposit. Where the
    /// deposit cannot be taken the position stays as it is.
    pub fn deposit(&mut self, amount: u64, now: u64, unbounding_period: u64) -> (taken: Result<
        (),
        ErrorCode,
    >)
        ensures
            old(self).deposit_defined(amount, now) ==> taken is Ok && *final(self) == old(
                self,
            ).after_deposit(amount, now, unbounding_period),
            !old(self).deposit_defined(amount, now) ==> taken == Err::<(), ErrorCode>(
                ErrorCode::ArithmeticError,
            ) && *final(self) == *old(self),
    {
        let mut amount_with_rewards: u64 = amount;
        if self.amount_tokens != 0 {
            let accrued = match calculate_rewards(
                self.amount_tokens,
                self.last_deposit_timestamp,
                now,
                0,
            ) {
                Ok(total) => total,
                Err(e) => {
                    return Err(e);
                },
            };
            amount_with_rewards =
            match amount.checked_add(accrued) {
                Some(sum) => sum,
                None => {
                    return Err(ErrorCode::ArithmeticError);
                },
            };
        }
        self.unbounding_period_in_days = unbounding_period;
        self.amount_tokens = amount_with_rewards;
        self.last_deposit_timestamp = now;
        Ok(())
    }

    /// Records that withdrawal was requested at `now`, whatever was recorded
    /// before and whatever is staked.
    pub fn request_withdrawal(&mut self, now: u64)
        ensures
            *final(self) == old(self).after_request(now),
    {
        self.withdrawal_request_timestamp = now;
    }

    /// Whether funds may leave at `now`.
    ///
    /// Without a request they may not, whatever is staked. With a request
    /// that is not after `now`, they may from the day on which the whole days
    /// since the request reach the unbonding period, and not before.
    pub fn check_withdrawal(&self, now: u64) -> (allowed: Result<(), ErrorCode>)
        ensures
            allowed == self.withdrawal_check(now),
            self.withdrawal_request_timestamp == 0 ==> allowed == Err::<(), ErrorCode>(
                ErrorCode::NoWithdrawalRequest,
            ),
            0 < self.withdrawal_request_timestamp <= now && whole_days(
                self.withdrawal_request_timestamp as int,
                now as int,
            ) < self.unbounding_period_in_days ==> allowed == Err::<(), ErrorCode>(
                ErrorCode::UnboundingPeriod,
            ),
            0 < self.withdrawal_request_timestamp <= now && whole_days(
                self.withdrawal_request_timestamp as int,
                now as int,
            ) >= self.unbounding_period_in_days ==> allowed is Ok,
    {
        if self.withdrawal_request_timestamp == 0 {
            return Err(ErrorCode::NoWithdrawalRequest);
        }
        if now < self.withdrawal_request_timestamp {
            return Err(ErrorCode::ArithmeticError);
        }
        let days_since_withdrawal_request: u64 = (now - self.withdrawal_request_timestamp)
            / MS_PER_DAY;
        if days_since_withdrawal_request < self.unbounding_period_in_days {
            return Err(ErrorCode::UnboundingPeriod);
        }
        Ok(())
    }

    /// What a withdrawal at `now` pays out.
    pub fn payout_at(&self, now: u64) -> (total: Result<u64, ErrorCode>)
        ensures
            self.payout_defined(now) ==> total == Ok::<u64, ErrorCode>(self.payout(now) as u64),
            !self.payout_defined(now) ==> total == Err::<u64, ErrorCode>(
                ErrorCode::ArithmeticError,
            ),
    {
        calculate_rewards(
            self.amount_tokens,
            self.last_deposit_timestamp,
            now,
            self.unbounding_period_in_days,
        )
    }

    /// Leaves nothing staked, once the funds have been paid out.
    pub fn pay_out(&mut self)
        ensures
            *final(self) == old(self).after_withdraw(),
    {
        self.amount_tokens = 0;
    }
}

} // verus!
