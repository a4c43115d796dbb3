//! The accounts that an operation is given, as the values that its rules
//! read, and the checks that every operation on an open position makes of
//! them.

use vstd::prelude::*;
use crate::address::Address;
use crate::custody::{
    create_program_address, check_derived, derives, escrow_seeds, position_seeds, push_bump,
    state_seeds, wallet_seeds,
};
use crate::errors::ErrorCode;
use crate::state::State;

verus! {

/// What an operation runs in: the program whose addresses are derived, and
/// the accounts handed to it.
#[derive(Clone, Copy, Debug, PartialEq, Eq)]
pub struct Context<T> {
    pub program_id: Address,
    pub accounts: T,
}

/// The caller of an operation.
#[derive(Clone, Copy, Debug, PartialEq, Eq)]
pub struct Signer {
    pub key: Address,
    /// Whether the caller signed the operation.
    pub is_signer: bool,
}

/// A token account, as far as the operations read it. Its balance is the
/// token ledger's to keep and to check.
#[derive(Clone, Copy, Debug, PartialEq, Eq)]
pub struct TokenAccount {
    pub key: Address,
    /// The asset held.
    pub mint: Address,
    /// The authority that may move the funds.
    pub owner: Address,
}

/// A position record with the address it is stored at.
#[derive(Clone, Copy, Debug, PartialEq, Eq)]
pub struct StateAccount {
    pub key: Address,
    pub data: State,
}

/// An address at which an account is to be created.
#[derive(Clone, Copy, Debug, PartialEq, Eq)]
pub struct NewAccount {
    pub key: Address,
    /// Whether an account already lives at the address.
    pub in_use: bool,
}

/// The caller signed and is the owner recorded on the position.
pub open spec fn owner_check(user: Signer, state: State) -> Result<(), ErrorCode> {
    if user.is_signer && user.key@ == state.user_sending@ {
        Ok(())
    } else {
        Err(ErrorCode::Unauthorized)
    }
}

/// The token account is the caller's own.
pub open spec fn holder_check(wallet: TokenAccount, user: Address) -> Result<(), ErrorCode> {
    if wallet.owner@ == user@ {
        Ok(())
    } else {
        Err(ErrorCode::Unauthorized)
    }
}

/// The token account is the caller's own and holds the asset.
pub open spec fn wallet_check(wallet: TokenAccount, user: Address, mint: Address) -> Result<
    (),
    ErrorCode,
> {
    if wallet.owner@ == user@ && wallet.mint@ == mint@ {
        Ok(())
    } else {
        Err(ErrorCode::Unauthorized)
    }
}

/// The asset and the index are those of the position, and with the caller
/// and `bump` they derive the address where the record is stored.
pub open spec fn position_check(
    program_id: Address,
    account: StateAccount,
    user: Address,
    mint: Address,
    application_idx: u64,
    bump: u8,
) -> Result<(), ErrorCode> {
    if mint@ == account.data.mint_of_token_being_sent@ && application_idx == account.data.idx
        && derives(position_seeds(user@, mint@, application_idx), bump, program_id@, account.key@) {
        Ok(())
    } else {
        Err(ErrorCode::AddressMismatch)
    }
}

/// The token account is the escrow of the position: it sits at the address
/// that the caller, the asset, the index and `bump` derive, which is the one
/// recorded when the position was opened; it holds the asset; and the
/// position's address is its authority.
pub open spec fn escrow_check(
    program_id: Address,
    escrow: TokenAccount,
    account: StateAccount,
    user: Address,
    mint: Address,
    application_idx: u64,
    bump: u8,
) -> Result<(), ErrorCode> {
    if escrow.key@ == account.data.escrow_wallet@ && escrow.mint@ == mint@ && escrow.owner@
        == account.key@ && derives(
        escrow_seeds(user@, mint@, application_idx),
        bump,
        program_id@,
        escrow.key@,
    ) {
        Ok(())
    } else {
        Err(ErrorCode::AddressMismatch)
    }
}

/// Checks that the caller signed and owns the position.
pub fn check_owner(user: &Signer, state: &State) -> (checked: Result<(), ErrorCode>)
    ensures
        checked == owner_check(*user, *state),
{
    if user.is_signer && user.key == state.user_sending {
        Ok(())
    } else {
        Err(ErrorCode::Unauthorized)
    }
}

/// Checks that the token account is the caller's own.
pub fn check_holder(wallet: &TokenAccount, user: &Address) -> (checked: Result<(), ErrorCode>)
    ensures
        checked == holder_check(*wallet, *user),
{
    if wallet.owner == *user {
        Ok(())
    } else {
        Err(ErrorCode::Unauthorized)
    }
}

/// Checks that the token account is the caller's own and holds the asset.
pub fn check_wallet(wallet: &TokenAccount, user: &Address, mint: &Address) -> (checked: Result<
    (),
    ErrorCode,
>)
    ensures
        checked == wallet_check(*wallet, *user, *mint),
{
    if wallet.owner == *user && wallet.mint == *mint {
        Ok(())
    } else {
        Err(ErrorCode::Unauthorized)
    }
}

/// Checks that the record is the position of the caller in the asset under
/// the index, stored where its key and `bump` derive.
pub fn check_position(
    program_id: &Address,
    account: &StateAccount,
    user: &Address,
    mint: &Address,
    application_idx: u64,
    bump: u8,
) -> (checked: Result<(), ErrorCode>)
    ensures
        checked == position_check(*program_id, *account, *user, *mint, application_idx, bump),
{
    if !(*mint == account.data.mint_of_token_being_sent) || application_idx != account.data.idx {
        return Err(ErrorCode::AddressMismatch);
    }
    let seeds = push_bump(state_seeds(user, mint, application_idx), bump);
    let derived = create_program_address(&seeds, program_id);
    check_derived(derived, &account.key)
}

/// Checks that the token account is the escrow of the position.
pub fn check_escrow(
    program_id: &Address,
    escrow: &TokenAccount,
    account: &StateAccount,
    user: &Address,
    mint: &Address,
    application_idx: u64,
    bump: u8,
) -> (checked: Result<(), ErrorCode>)
    ensures
        checked == escrow_check(
            *program_id,
            *escrow,
            *account,
            *user,
            *mint,
            application_idx,
            bump,
        ),
{
    if !(escrow.key == account.data.escrow_wallet) || !(escrow.mint == *mint) || !(escrow.owner
        == account.key) {
        return Err(ErrorCode::AddressMismatch);
    }
    let seeds = push_bump(wallet_seeds(user, mint, application_idx), bump);
    let derived = create_program_address(&seeds, program_id);
    check_derived(derived, &escrow.key)
}

} // verus!
