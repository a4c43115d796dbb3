//! Withdrawing from a position: once the unbonding period of a request has
//! run out, the stake and its reward leave the escrow.

use vstd::prelude::*;
use crate::accounts::{
    check_escrow, check_holder, check_owner, check_position, escrow_check, holder_check,
    owner_check, position_check, Context, Signer, StateAccount, TokenAccount,
};
use crate::address::Address;
use crate::custody::{position_seeds, sign_for_position, SigningAuthority};
use crate::errors::ErrorCode;
use crate::state::State;
use crate::token::{Burn, Transfer};
use crate::utils::whole_days;

verus! {

/// The accounts of a withdrawal.
#[derive(Clone, Copy, Debug, PartialEq, Eq)]
pub struct Withdraw {
    /// The position.
    pub application_state: StateAccount,
    /// The escrow of the position, which the funds leave.
    pub escrow_wallet_state: TokenAccount,
    /// The caller.
    pub user_sending: Signer,
    /// The asset staked.
    pub mint_of_token_being_sent: Address,
    /// The token account that receives the funds.
    pub refund_wallet: TokenAccount,
}

/// What a withdrawal asks of the token ledger, in this order, and the
/// authority that signs for both.
#[derive(Clone, Debug, PartialEq, Eq)]
pub struct Settlement {
    /// Pays the stake and its reward out of the escrow.
    pub transfer: Transfer,
    /// Destroys the same amount in the escrow.
    pub burn: Burn,
    /// The position's authority over the escrow.
    pub authority: SigningAuthority,
}

/// Whether the accounts are those of a withdrawal by the owner: the caller
/// signed, owns the position and owns the account to be paid; and the
/// position and its escrow are the ones that the key and the two bumps
/// derive.
pub open spec fn withdraw_check(
    ctx: Context<Withdraw>,
    application_idx: u64,
    state_bump: u8,
    wallet_bump: u8,
) -> Result<(), ErrorCode> {
    let a = ctx.accounts;
    if owner_check(a.user_sending, a.application_state.data) is Err {
        Err(ErrorCode::Unauthorized)
    } else if holder_check(a.refund_wallet, a.user_sending.key) is Err {
        Err(ErrorCode::Unauthorized)
    } else if position_check(
        ctx.program_id,
        a.application_state,
        a.user_sending.key,
        a.mint_of_token_being_sent,
        application_idx,
        state_bump,
    ) is Err {
        Err(ErrorCode::AddressMismatch)
    } else {
        escrow_check(
            ctx.program_id,
            a.escrow_wallet_state,
            a.application_state,
            a.user_sending.key,
            a.mint_of_token_being_sent,
            application_idx,
            wallet_bump,
        )
    }
}

/// Whether a withdrawal at `current_timestamp` goes through, and the error
/// if it does not: the accounts pass `withdraw_check`; a withdrawal was
/// requested and its unbonding period has run out; and the payout exists.
pub open spec fn withdraw_outcome(
    ctx: Context<Withdraw>,
    application_idx: u64,
    state_bump: u8,
    wallet_bump: u8,
    current_timestamp: u64,
) -> Result<(), ErrorCode> {
    let state = ctx.accounts.application_state.data;
    if withdraw_check(ctx, application_idx, state_bump, wallet_bump) is Err {
        withdraw_check(ctx, application_idx, state_bump, wallet_bump)
    } else if state.withdrawal_check(current_timestamp) is Err {
        state.withdrawal_check(current_timestamp)
    } else if !state.payout_defined(current_timestamp) {
        Err(ErrorCode::ArithmeticError)
    } else {
        Ok(())
    }
}

/// `settlement` pays out the position of `ctx` at `current_timestamp`: the
/// payout goes from the escrow to the account to be paid, the same amount is
/// burnt in the escrow, and both are signed for by the position's address
/// with the seeds of its key and `state_bump`.
pub open spec fn settles(
    settlement: Settlement,
    ctx: Context<Withdraw>,
    application_idx: u64,
    state_bump: u8,
    current_timestamp: u64,
) -> bool {
    let a = ctx.accounts;
    let total = a.application_state.data.payout(current_timestamp) as u64;
    &&& settlement.transfer == Transfer {
        from: a.escrow_wallet_state.key,
        to: a.refund_wallet.key,
        authority: a.application_state.key,
        amount: total,
    }
    &&& settlement.burn == Burn {
        mint: a.mint_of_token_being_sent,
        from: a.escrow_wallet_state.key,
        authority: a.application_state.key,
        amount: total,
    }
    &&& settlement.authority.address == a.application_state.key
    &&& settlement.authority.stands_for(
        ctx.program_id@,
        position_seeds(a.user_sending.key@, a.mint_of_token_being_sent@, application_idx),
        state_bump,
    )
}

/// `ctx` with the position record replaced by `data`.
pub open spec fn withdraw_stored(ctx: Context<Withdraw>, data: State) -> Context<Withdraw> {
    Context {
        accounts: Withdraw {
            application_state: StateAccount { data, ..ctx.accounts.application_state },
            ..ctx.accounts
        },
        ..ctx
    }
}

/// What a withdrawal does: where `withdraw_outcome` is `Ok`, the settlement
/// of the payout is returned and the position is left with nothing staked;
/// else nothing changes and the error of `withdraw_outcome` is returned.
pub open spec fn withdraws(
    before: Context<Withdraw>,
    after: Context<Withdraw>,
    paid: Result<Settlement, ErrorCode>,
    application_idx: u64,
    state_bump: u8,
    wallet_bump: u8,
    current_timestamp: u64,
) -> bool {
    match paid {
        Ok(settlement) => {
            &&& withdraw_outcome(before, application_idx, state_bump, wallet_bump, current_timestamp)
                is Ok
            &&& settles(settlement, before, application_idx, state_bump, current_timestamp)
            &&& after == withdraw_stored(
                before,
                before.accounts.application_state.data.after_withdraw(),
            )
        },
        Err(e) => {
            &&& withdraw_outcome(before, application_idx, state_bump, wallet_bump, current_timestamp)
                == Err::<(), ErrorCode>(e)
            &&& after == before
        },
    }
}

/// Checks the accounts of a withdrawal.
pub fn check_withdraw(
    ctx: &Context<Withdraw>,
    application_idx: u64,
    state_bump: u8,
    wallet_bump: u8,
) -> (checked: Result<(), ErrorCode>)
    ensures
        checked == withdraw_check(*ctx, application_idx, state_bump, wallet_bump),
{
    let a = &ctx.accounts;
    match check_owner(&a.user_sending, &a.application_state.data) {
        Ok(()) => {},
        Err(e) => {
            return Err(e);
        },
    }
    match check_holder(&a.refund_wallet, &a.user_sending.key) {
        Ok(()) => {},
        Err(e) => {
            return Err(e);
        },
    }
    match check_position(
        &ctx.program_id,
        &a.application_state,
        &a.user_sending.key,
        &a.mint_of_token_being_sent,
        application_idx,
        state_bump,
    ) {
        Ok(()) => {},
        Err(e) => {
            return Err(e);
        },
    }
    check_escrow(
        &ctx.program_id,
        &a.escrow_wallet_state,
        &a.application_state,
        &a.user_sending.key,
        &a.mint_of_token_being_sent,
        application_idx,
        wallet_bump,
    )
}

/// The guard on funds leaving the escrow: a withdrawal has been requested,
/// and at `current_timestamp` its unbonding period has run out.
pub fn is_not_expired(ctx: &Context<Withdraw>, current_timestamp: u64) -> (allowed: Result<
    (),
    ErrorCode,
>)
    ensures
        allowed == ctx.accounts.application_state.data.withdrawal_check(current_timestamp),
        ctx.accounts.application_state.data.withdrawal_request_timestamp == 0 ==> allowed == Err::<
            (),
            ErrorCode,
        >(ErrorCode::NoWithdrawalRequest),
{
    ctx.accounts.application_state.data.check_withdrawal(current_timestamp)
}

/// Pays out the position at `current_timestamp`.
///
/// The accounts are checked, then the guard `is_not_expired`; the payout is
/// the stake with its reward, the days of the unbonding period left out; the
/// guard is checked once more before the position signs; and the position is
/// left with nothing staked, its request still on the record. The settlement
/// is returned for the token ledger to carry out.
///
/// Without a request the withdrawal fails with `NoWithdrawalRequest`,
/// whatever is staked. Before the whole days since the request reach the
/// unbonding period it fails with `UnboundingPeriod`. From the day they do
/// it never fails for that reason: it succeeds wherever the payout exists,
/// and fails with `ArithmeticError` where it does not.
pub fn withdraw_funds_handler(
    ctx: &mut Context<Withdraw>,
    application_idx: u64,
    state_bump: u8,
    wallet_bump: u8,
    current_timestamp: u64,
) -> (paid: Result<Settlement, ErrorCode>)
    ensures
        withdraws(
            *old(ctx),
            *final(ctx),
            paid,
            application_idx,
            state_bump,
            wallet_bump,
            current_timestamp,
        ),
        withdraw_check(*old(ctx), application_idx, state_bump, wallet_bump) is Ok && old(
            ctx,
        ).accounts.application_state.data.withdrawal_request_timestamp == 0 ==> paid == Err::<
            Settlement,
            ErrorCode,
        >(ErrorCode::NoWithdrawalRequest),
        ({
            let state = old(ctx).accounts.application_state.data;
            &&& withdraw_check(*old(ctx), application_idx, state_bump, wallet_bump) is Ok
            &&& 0 < state.withdrawal_request_timestamp <= current_timestamp
            &&& whole_days(state.withdrawal_request_timestamp as int, current_timestamp as int)
                < state.unbounding_period_in_days
        }) ==> paid == Err::<Settlement, ErrorCode>(ErrorCode::UnboundingPeriod),
        ({
            let state = old(ctx).accounts.application_state.data;
            &&& withdraw_check(*old(ctx), application_idx, state_bump, wallet_bump) is Ok
            &&& 0 < state.withdrawal_request_timestamp <= current_timestamp
            &&& whole_days(state.withdrawal_request_timestamp as int, current_timestamp as int)
                >= state.unbounding_period_in_days
        }) ==> {
            &&& paid != Err::<Settlement, ErrorCode>(ErrorCode::UnboundingPeriod)
            &&& paid is Ok <==> old(ctx).accounts.application_state.data.payout_defined(
                current_timestamp,
            )
        },
        paid is Ok ==> final(ctx).accounts.application_state.data.amount_tokens == 0,
{
    match check_withdraw(ctx, application_idx, state_bump, wallet_bump) {
        Ok(()) => {},
        Err(e) => {
            return Err(e);
        },
    }
    match is_not_expired(ctx, current_timestamp) {
        Ok(()) => {},
        Err(e) => {
            return Err(e);
        },
    }
    let total_amount = match ctx.accounts.application_state.data.payout_at(current_timestamp) {
        Ok(total) => total,
        Err(e) => {
            return Err(e);
        },
    };
    match is_not_expired(ctx, current_timestamp) {
        Ok(()) => {},
        Err(e) => {
            return Err(e);
        },
    }
    let authority = match sign_for_position(
        &ctx.program_id,
        &ctx.accounts.application_state.key,
        &ctx.accounts.user_sending.key,
        &ctx.accounts.mint_of_token_being_sent,
        application_idx,
        state_bump,
    ) {
        Ok(authority) => authority,
        Err(e) => {
            return Err(e);
        },
    };
    let transfer = Transfer {
        from: ctx.accounts.escrow_wallet_state.key,
        to: ctx.accounts.refund_wallet.key,
        authority: ctx.accounts.application_state.key,
        amount: total_amount,
    };
    let burn = Burn {
        mint: ctx.accounts.mint_of_token_being_sent,
        from: ctx.accounts.escrow_wallet_state.key,
        authority: ctx.accounts.application_state.key,
        amount: total_amount,
    };
    ctx.accounts.application_state.data.pay_out();
    Ok(Settlement { transfer, burn, authority })
}

} // verus!
