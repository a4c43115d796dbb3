//! Opening a position.

use vstd::prelude::*;
use crate::accounts::{wallet_check, check_wallet, Context, NewAccount, Signer, StateAccount, TokenAccount};
use crate::address::Address;
use crate::custody::{
    canonical_bump, canonical_signer, escrow_seeds, has_canonical, position_seeds, state_seeds,
    wallet_seeds, SigningAuthority,
};
use crate::errors::ErrorCode;
use crate::state::State;

verus! {

/// The accounts of the operation that opens a position.
#[derive(Clone, Copy, Debug, PartialEq, Eq)]
pub struct Initialize {
    /// Where the position record is to be created.
    pub application_state: NewAccount,
    /// Where the escrow account is to be created.
    pub escrow_wallet_state: NewAccount,
    /// The caller, who becomes the owner and pays for the storage.
    pub user_sending: Signer,
    /// The asset to be staked.
    pub mint_of_token_being_sent: Address,
    /// The caller's own token account in the asset.
    pub wallet_to_withdraw_from: TokenAccount,
}

/// What opening a position asks the ledger to create.
#[derive(Clone, Debug, PartialEq, Eq)]
pub struct Opening {
    /// The position record, at its address.
    pub application_state: StateAccount,
    /// The escrow account: in the asset, under the position's authority.
    pub escrow_wallet_state: TokenAccount,
    /// The authority by which the position's address signs for its creation.
    pub state_signer: SigningAuthority,
    /// The authority by which the escrow's address signs for its creation.
    pub wallet_signer: SigningAuthority,
}

/// Whether a position may be opened: the caller signed and presents a token
/// account of their own in the asset; the two accounts to create sit at the
/// canonical addresses of the position's key; and neither address is taken.
pub open spec fn initialize_check(ctx: Context<Initialize>, application_idx: u64) -> Result<
    (),
    ErrorCode,
> {
    let a = ctx.accounts;
    if !a.user_sending.is_signer {
        Err(ErrorCode::Unauthorized)
    } else if wallet_check(
        a.wallet_to_withdraw_from,
        a.user_sending.key,
        a.mint_of_token_being_sent,
    ) is Err {
        Err(ErrorCode::Unauthorized)
    } else if !has_canonical(
        position_seeds(a.user_sending.key@, a.mint_of_token_being_sent@, application_idx),
        ctx.program_id@,
        a.application_state.key@,
    ) {
        Err(ErrorCode::AddressMismatch)
    } else if !has_canonical(
        escrow_seeds(a.user_sending.key@, a.mint_of_token_being_sent@, application_idx),
        ctx.program_id@,
        a.escrow_wallet_state.key@,
    ) {
        Err(ErrorCode::AddressMismatch)
    } else if a.application_state.in_use || a.escrow_wallet_state.in_use {
        Err(ErrorCode::AlreadyExists)
    } else {
        Ok(())
    }
}

/// `opening` is what opening the position of `ctx` creates: a record with
/// nothing staked and no request pending, an escrow in the asset under the
/// position's authority, and for each the authority of its canonical seeds.
pub open spec fn opens(opening: Opening, ctx: Context<Initialize>, application_idx: u64) -> bool {
    let a = ctx.accounts;
    let of_position = position_seeds(
        a.user_sending.key@,
        a.mint_of_token_being_sent@,
        application_idx,
    );
    let of_escrow = escrow_seeds(
        a.user_sending.key@,
        a.mint_of_token_being_sent@,
        application_idx,
    );
    &&& opening.application_state == StateAccount {
        key: a.application_state.key,
        data: State::opened(
            application_idx,
            a.user_sending.key,
            a.mint_of_token_being_sent,
            a.escrow_wallet_state.key,
        ),
    }
    &&& opening.escrow_wallet_state == TokenAccount {
        key: a.escrow_wallet_state.key,
        mint: a.mint_of_token_being_sent,
        owner: a.application_state.key,
    }
    &&& opening.state_signer.address == a.application_state.key
    &&& opening.state_signer.stands_for(
        ctx.program_id@,
        of_position,
        canonical_bump(of_position, ctx.program_id@, a.application_state.key@),
    )
    &&& opening.wallet_signer.address == a.escrow_wallet_state.key
    &&& opening.wallet_signer.stands_for(
        ctx.program_id@,
        of_escrow,
        canonical_bump(of_escrow, ctx.program_id@, a.escrow_wallet_state.key@),
    )
}

/// What opening a position does: it succeeds exactly where
/// `initialize_check` does, with what `opens` describes; else it fails with
/// the error of `initialize_check`.
pub open spec fn initializes(
    ctx: Context<Initialize>,
    opened: Result<Opening, ErrorCode>,
    application_idx: u64,
) -> bool {
    match opened {
        Ok(opening) => initialize_check(ctx, application_idx) is Ok && opens(
            opening,
            ctx,
            application_idx,
        ),
        Err(e) => initialize_check(ctx, application_idx) == Err::<(), ErrorCode>(e),
    }
}

/// Opens the position of the caller in the asset under `application_idx`:
/// a record with nothing staked, and its escrow, both at the canonical
/// addresses of the position's key. What is to be created is returned for
/// the ledger to carry out.
pub fn initialize_handler(ctx: &Context<Initialize>, application_idx: u64) -> (opened: Result<
    Opening,
    ErrorCode,
>)
    ensures
        initializes(*ctx, opened, application_idx),
{
    let a = &ctx.accounts;
    if !a.user_sending.is_signer {
        return Err(ErrorCode::Unauthorized);
    }
    match check_wallet(&a.wallet_to_withdraw_from, &a.user_sending.key, &a.mint_of_token_being_sent) {
        Ok(()) => {},
        Err(e) => {
            return Err(e);
        },
    }
    let state_signer = match canonical_signer(
        &ctx.program_id,
        state_seeds(&a.user_sending.key, &a.mint_of_token_being_sent, application_idx),
        &a.application_state.key,
    ) {
        Ok(signer) => signer,
        Err(e) => {
            return Err(e);
        },
    };
    let wallet_signer = match canonical_signer(
        &ctx.program_id,
        wallet_seeds(&a.user_sending.key, &a.mint_of_token_being_sent, application_idx),
        &a.escrow_wallet_state.key,
    ) {
        Ok(signer) => signer,
        Err(e) => {
            return Err(e);
        },
    };
    if a.application_state.in_use || a.escrow_wallet_state.in_use {
        return Err(ErrorCode::AlreadyExists);
    }
    Ok(
        Opening {
            application_state: StateAccount {
                key: a.application_state.key,
                data: State::new(
                    application_idx,
                    a.user_sending.key,
                    a.mint_of_token_being_sent,
                    a.escrow_wallet_state.key,
                ),
            },
            escrow_wallet_state: TokenAccount {
                key: a.escrow_wallet_state.key,
                mint: a.mint_of_token_being_sent,
                owner: a.application_state.key,
            },
            state_signer,
            wallet_signer,
        },
    )
}

} // verus!
