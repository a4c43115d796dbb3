//! The balance of a position, told from the history of its deposits alone.

use vstd::prelude::*;
use crate::state::State;
use crate::utils::{accrued, lemma_accrued_at_least_principal};

verus! {

/// One deposit, as a history remembers it.
pub struct DepositRecord {
    pub amount: u64,
    pub timestamp: u64,
    pub unbounding_period: u64,
}

/// What a history of deposits, oldest first, leaves staked on a position
/// that was empty before the first of them: each amount, added to what the
/// deposits before it had left, with the reward that this earned between the
/// two deposits.
pub open spec fn balance_of(history: Seq<DepositRecord>) -> int
    decreases history.len(),
{
    if history.len() == 0 {
        0
    } else {
        let earlier = history.drop_last();
        let carried = balance_of(earlier);
        let deposit = history.last();
        if carried == 0 {
            deposit.amount as int
        } else {
            deposit.amount + accrued(
                carried,
                earlier.last().timestamp as int,
                deposit.timestamp as int,
                0,
            )
        }
    }
}

/// The position after the deposits of `history` were made on `state`, oldest
/// first; `None` where one of them is refused.
pub open spec fn replay(state: State, history: Seq<DepositRecord>) -> Option<State>
    decreases history.len(),
{
    if history.len() == 0 {
        Some(state)
    } else {
        let deposit = history.last();
        match replay(state, history.drop_last()) {
            Some(before) => if before.deposit_defined(deposit.amount, deposit.timestamp) {
                Some(
                    before.after_deposit(
                        deposit.amount,
                        deposit.timestamp,
                        deposit.unbounding_period,
                    ),
                )
            } else {
                None
            },
            None => None,
        }
    }
}

/// What is staked after any sequence of deposits that were all taken, on a
/// position that was empty before, is the balance of their history: it can
/// be told from the amounts and the times of the deposits alone. The last
/// deposit also leaves its time and its unbonding term on the position.
pub proof fn lemma_balance_from_history(state: State, history: Seq<DepositRecord>)
    requires
        state.amount_tokens == 0,
        replay(state, history) is Some,
    ensures
        replay(state, history)->Some_0.amount_tokens == balance_of(history),
        history.len() > 0 ==> {
            &&& replay(state, history)->Some_0.last_deposit_timestamp == history.last().timestamp
            &&& replay(state, history)->Some_0.unbounding_period_in_days
                == history.last().unbounding_period
        },
    decreases history.len(),
{
    if history.len() > 0 {
        let earlier = history.drop_last();
        let deposit = history.last();
        lemma_balance_from_history(state, earlier);
        let before = replay(state, earlier)->Some_0;
        if before.amount_tokens != 0 {
            lemma_accrued_at_least_principal(
                before.amount_tokens as int,
                before.last_deposit_timestamp as int,
                deposit.timestamp as int,
                0,
            );
        }
    }
}

} // verus!
