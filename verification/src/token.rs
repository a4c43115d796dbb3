//! The instructions that the staking operations hand to the token ledger.

use vstd::prelude::*;
use crate::address::Address;

verus! {

/// Move `amount` from the token account `from` to the token account `to`,
/// by the authority that controls `from`.
#[derive(Clone, Copy, Debug, PartialEq, Eq)]
pub struct Transfer {
    pub from: Address,
    pub to: Address,
    pub authority: Address,
    pub amount: u64,
}

/// Destroy `amount` of the asset `mint` held in the token account `from`,
/// by the authority that controls `from`.
#[derive(Clone, Copy, Debug, PartialEq, Eq)]
pub struct Burn {
    pub mint: Address,
    pub from: Address,
    pub authority: Address,
    pub amount: u64,
}

} // verus!
