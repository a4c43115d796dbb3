//! Depositing into a position: a first stake, or a top-up that first
//! settles the reward earned so far.

use vstd::prelude::*;
use crate::accounts::{
    check_escrow, check_owner, check_position, check_wallet, escrow_check, owner_check,
    position_check, wallet_check, Context, Signer, StateAccount, TokenAccount,
};
use crate::address::Address;
use crate::errors::ErrorCode;
use crate::state::State;
use crate::token::Transfer;

verus! {

/// The accounts of a deposit.
#[derive(Clone, Copy, Debug, PartialEq, Eq)]
pub struct Deposit {
    /// The position.
    pub application_state: StateAccount,
    /// The escrow of the position, which receives the funds.
    pub escrow_wallet_state: TokenAccount,
    /// The caller.
    pub user_sending: Signer,
    /// The asset deposited.
    pub mint_of_token_being_sent: Address,
    /// The token account that the funds come from.
    pub wallet_to_withdraw_from: TokenAccount,
}

/// Whether the accounts are those of a deposit by the owner: the caller
/// signed and owns the position; the source account is the caller's and in
/// the asset; and the position and its escrow are the ones that the key and
/// the two bumps derive.
pub open spec fn deposit_check(
    ctx: Context<Deposit>,
    application_idx: u64,
    state_bump: u8,
    wallet_bump: u8,
) -> Result<(), ErrorCode> {
    let a = ctx.accounts;
    if owner_check(a.user_sending, a.application_state.data) is Err {
        Err(ErrorCode::Unauthorized)
    } else if wallet_check(
        a.wallet_to_withdraw_from,
        a.user_sending.key,
        a.mint_of_token_being_sent,
    ) is Err {
        Err(ErrorCode::Unauthorized)
    } else if position_check(
        ctx.program_id,
        a.application_state,
        a.user_sending.key,
        a.mint_of_token_being_sent,
        application_idx,
        state_bump,
    ) is Err {
        Err(ErrorCode::AddressMismatch)
    } else {
        escrow_check(
            ctx.program_id,
            a.escrow_wallet_state,
            a.application_state,
            a.user_sending.key,
            a.mint_of_token_being_sent,
            application_idx,
            wallet_bump,
        )
    }
}

/// Whether a deposit goes through, and the error if it does not: the
/// accounts pass `deposit_check`, and the position can take the amount.
pub open spec fn deposit_outcome(
    ctx: Context<Deposit>,
    application_idx: u64,
    state_bump: u8,
    wallet_bump: u8,
    amount: u64,
    timestamp: u64,
) -> Result<(), ErrorCode> {
    if deposit_check(ctx, application_idx, state_bump, wallet_bump) is Err {
        deposit_check(ctx, application_idx, state_bump, wallet_bump)
    } else if !ctx.accounts.application_state.data.deposit_defined(amount, timestamp) {
        Err(ErrorCode::ArithmeticError)
    } else {
        Ok(())
    }
}

/// The transfer that a deposit asks of the token ledger: `amount` from the
/// caller's account into the escrow, signed by the caller.
pub open spec fn deposit_transfer(ctx: Context<Deposit>, amount: u64) -> Transfer {
    Transfer {
        from: ctx.accounts.wallet_to_withdraw_from.key,
        to: ctx.accounts.escrow_wallet_state.key,
        authority: ctx.accounts.user_sending.key,
        amount,
    }
}

/// `ctx` with the position record replaced by `data`.
pub open spec fn deposit_stored(ctx: Context<Deposit>, data: State) -> Context<Deposit> {
    Context {
        accounts: Deposit {
            application_state: StateAccount { data, ..ctx.accounts.application_state },
            ..ctx.accounts
        },
        ..ctx
    }
}

/// What a deposit does: where `deposit_outcome` is `Ok`, the position is
/// `after_deposit` and the transfer of the amount is returned; else nothing
/// changes and the error of `deposit_outcome` is returned.
pub open spec fn deposits(
    before: Context<Deposit>,
    after: Context<Deposit>,
    sent: Result<Transfer, ErrorCode>,
    application_idx: u64,
    state_bump: u8,
    wallet_bump: u8,
    amount: u64,
    timestamp: u64,
    unbounding_period: u64,
) -> bool {
    match deposit_outcome(before, application_idx, state_bump, wallet_bump, amount, timestamp) {
        Ok(()) => {
            &&& sent == Ok::<Transfer, ErrorCode>(deposit_transfer(before, amount))
            &&& after == deposit_stored(
                before,
                before.accounts.application_state.data.after_deposit(
                    amount,
                    timestamp,
                    unbounding_period,
                ),
            )
        },
        Err(e) => sent == Err::<Transfer, ErrorCode>(e) && after == before,
    }
}

/// Checks the accounts of a deposit.
pub fn check_deposit(
    ctx: &Context<Deposit>,
    application_idx: u64,
    state_bump: u8,
    wallet_bump: u8,
) -> (checked: Result<(), ErrorCode>)
    ensures
        checked == deposit_check(*ctx, application_idx, state_bump, wallet_bump),
{
    let a = &ctx.accounts;
    match check_owner(&a.user_sending, &a.application_state.data) {
        Ok(()) => {},
        Err(e) => {
            return Err(e);
        },
    }
    match check_wallet(&a.wallet_to_withdraw_from, &a.user_sending.key, &a.mint_of_token_being_sent) {
        Ok(()) => {},
        Err(e) => {
            return Err(e);
        },
    }
    match check_position(
        &ctx.program_id,
        &a.application_state,
        &a.user_sending.key,
        &a.mint_of_token_being_sent,
        application_idx,
        state_bump,
    ) {
        Ok(()) => {},
        Err(e) => {
            return Err(e);
        },
    }
    check_escrow(
        &ctx.program_id,
        &a.escrow_wallet_state,
        &a.application_state,
        &a.user_sending.key,
        &a.mint_of_token_being_sent,
        application_idx,
        wallet_bump,
    )
}

/// Deposits `amount` into the position at `timestamp`, under the unbonding
/// term `unbounding_period`.
///
/// On an empty position the amount becomes the stake. On a position that
/// holds funds, the stake first takes the reward it has earned since the
/// last deposit, and the amount is added. Either way the deposit time and
/// the unbonding term are set anew, and the transfer that moves the amount
/// into the escrow is returned for the token ledger to carry out.
pub fn deposit_funds_handler(
    ctx: &mut Context<Deposit>,
    application_idx: u64,
    state_bump: u8,
    wallet_bump: u8,
    amount: u64,
    timestamp: u64,
    unbounding_period: u64,
) -> (sent: Result<Transfer, ErrorCode>)
    ensures
        deposits(
            *old(ctx),
            *final(ctx),
            sent,
            application_idx,
            state_bump,
            wallet_bump,
            amount,
            timestamp,
            unbounding_period,
        ),
{
    match check_deposit(ctx, application_idx, state_bump, wallet_bump) {
        Ok(()) => {},
        Err(e) => {
            return Err(e);
        },
    }
    match ctx.accounts.application_state.data.deposit(amount, timestamp, unbounding_period) {
        Ok(()) => {},
        Err(e) => {
            return Err(e);
        },
    }
    Ok(
        Transfer {
            from: ctx.accounts.wallet_to_withdraw_from.key,
            to: ctx.accounts.escrow_wallet_state.key,
            authority: ctx.accounts.user_sending.key,
            amount,
        },
    )
}

} // verus!
