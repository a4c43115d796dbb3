//! The entry points of the program, one for each operation.

use vstd::prelude::*;
use crate::accounts::Context;
use crate::errors::ErrorCode;
use crate::instructions::deposit_funds::{deposits, Deposit};
use crate::instructions::initialize::{initialize_handler, initializes, Initialize, Opening};
use crate::instructions::withdraw_funds::{
    withdraw_funds_handler, withdraws, Settlement, Withdraw,
};
use crate::instructions::withdrawal_request::{
    requests, withdrawal_request_handler, WithdrawalRequest,
};
use crate::token::Transfer;

verus! {

/// Opens a position.
pub fn initialize(ctx: &Context<Initialize>, application_idx: u64) -> (opened: Result<
    Opening,
    ErrorCode,
>)
    ensures
        initializes(*ctx, opened, application_idx),
{
    initialize_handler(ctx, application_idx)
}

/// Pays out a position whose unbonding period has run out.
pub fn withdraw_funds(
    ctx: &mut Context<Withdraw>,
    application_idx: u64,
    state_bump: u8,
    wallet_bump: u8,
    current_timestamp: u64,
) -> (paid: Result<Settlement, ErrorCode>)
    ensures
        withdraws(
            *old(ctx),
            *final(ctx),
            paid,
            application_idx,
            state_bump,
            wallet_bump,
            current_timestamp,
        ),
{
    withdraw_funds_handler(ctx, application_idx, state_bump, wallet_bump, current_timestamp)
}

/// Requests a withdrawal.
pub fn withdrawal_request(
    ctx: &mut Context<WithdrawalRequest>,
    application_idx: u64,
    state_bump: u8,
    current_timestamp: u64,
) -> (done: Result<(), ErrorCode>)
    ensures
        requests(*old(ctx), *final(ctx), done, application_idx, state_bump, current_timestamp),
{
    withdrawal_request_handler(ctx, application_idx, state_bump, current_timestamp)
}

/// Deposits into a position.
pub fn deposit_funds_handler(
    ctx: &mut Context<Deposit>,
    application_idx: u64,
    state_bump: u8,
    wallet_bump: u8,
    amount: u64,
    timestamp: u64,
    unbounding_period: u64,
) -> (sent: Result<Transfer, ErrorCode>)
    ensures
        deposits(
            *old(ctx),
            *final(ctx),
            sent,
            application_idx,
            state_bump,
            wallet_bump,
            amount,
            timestamp,
            unbounding_period,
        ),
{
    crate::instructions::deposit_funds::deposit_funds_handler(
        ctx,
        application_idx,
        state_bump,
        wallet_bump,
        amount,
        timestamp,
        unbounding_period,
    )
}

} // verus!
