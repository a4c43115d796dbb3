//! Requesting a withdrawal: the start of the unbonding period.

use vstd::prelude::*;
use crate::accounts::{
    check_owner, check_position, owner_check, position_check, Context, Signer, StateAccount,
};
use crate::address::Address;
use crate::errors::ErrorCode;
use crate::state::State;

verus! {

/// The accounts of a withdrawal request.
#[derive(Clone, Copy, Debug, PartialEq, Eq)]
pub struct WithdrawalRequest {
    /// The position.
    pub application_state: StateAccount,
    /// The caller.
    pub user_sending: Signer,
    /// The asset staked.
    pub mint_of_token_being_sent: Address,
}

/// Whether the accounts are those of a request by the owner: the caller
/// signed and owns the position, and the position is the one that the key
/// and the bump derive.
pub open spec fn request_check(
    ctx: Context<WithdrawalRequest>,
    application_idx: u64,
    state_bump: u8,
) -> Result<(), ErrorCode> {
    let a = ctx.accounts;
    if owner_check(a.user_sending, a.application_state.data) is Err {
        Err(ErrorCode::Unauthorized)
    } else {
        position_check(
            ctx.program_id,
            a.application_state,
            a.user_sending.key,
            a.mint_of_token_being_sent,
            application_idx,
            state_bump,
        )
    }
}

/// `ctx` with the position record replaced by `data`.
pub open spec fn request_stored(ctx: Context<WithdrawalRequest>, data: State) -> Context<
    WithdrawalRequest,
> {
    Context {
        accounts: WithdrawalRequest {
            application_state: StateAccount { data, ..ctx.accounts.application_state },
            ..ctx.accounts
        },
        ..ctx
    }
}

/// What a withdrawal request does: where `request_check` is `Ok`, the
/// request time of the position is `current_timestamp`, whatever it was
/// before and whatever is staked; else nothing changes and the error of
/// `request_check` is returned.
pub open spec fn requests(
    before: Context<WithdrawalRequest>,
    after: Context<WithdrawalRequest>,
    done: Result<(), ErrorCode>,
    application_idx: u64,
    state_bump: u8,
    current_timestamp: u64,
) -> bool {
    &&& done == request_check(before, application_idx, state_bump)
    &&& after == if done is Ok {
        request_stored(
            before,
            before.accounts.application_state.data.after_request(current_timestamp),
        )
    } else {
        before
    }
}

/// Checks the accounts of a withdrawal request.
pub fn check_request(
    ctx: &Context<WithdrawalRequest>,
    application_idx: u64,
    state_bump: u8,
) -> (checked: Result<(), ErrorCode>)
    ensures
        checked == request_check(*ctx, application_idx, state_bump),
{
    let a = &ctx.accounts;
    match check_owner(&a.user_sending, &a.application_state.data) {
        Ok(()) => {},
        Err(e) => {
            return Err(e);
        },
    }
    check_position(
        &ctx.program_id,
        &a.application_state,
        &a.user_sending.key,
        &a.mint_of_token_being_sent,
        application_idx,
        state_bump,
    )
}

/// Records that the owner asked at `current_timestamp` to withdraw. A later
/// request starts the unbonding period anew. No funds move.
pub fn withdrawal_request_handler(
    ctx: &mut Context<WithdrawalRequest>,
    application_idx: u64,
    state_bump: u8,
    current_timestamp: u64,
) -> (done: Result<(), ErrorCode>)
    ensures
        requests(*old(ctx), *final(ctx), done, application_idx, state_bump, current_timestamp),
{
    match check_request(ctx, application_idx, state_bump) {
        Ok(()) => {},
        Err(e) => {
            return Err(e);
        },
    }
    ctx.accounts.application_state.data.request_withdrawal(current_timestamp);
    Ok(())
}

} // verus!
