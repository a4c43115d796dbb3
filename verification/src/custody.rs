//! Escrow custody: the addresses that a position's key derives, and the
//! authority by which the program moves funds out of an escrow that no
//! private key controls.

use vstd::prelude::*;
use vstd::bytes::{lemma_auto_spec_u64_to_from_le_bytes, spec_u64_to_le_bytes, u64_to_le_bytes};
use crate::address::Address;
use crate::errors::ErrorCode;

verus! {

/// The address that `Pubkey::create_program_address` derives for `program_id`
/// from `seeds`, or `None` where it derives none: the seeds are too many or
/// too long, or their hash is a point of the curve and so could have a
/// private key.
pub uninterp spec fn program_address(seeds: Seq<Seq<u8>>, program_id: Seq<u8>) -> Option<Seq<u8>>;

/// The byte strings that a list of seeds holds.
pub open spec fn seeds_view(seeds: Vec<Vec<u8>>) -> Seq<Seq<u8>> {
    seeds@.map_values(|seed: Vec<u8>| seed@)
}

/// `seeds` followed by the one-byte seed `bump`.
pub open spec fn with_bump(seeds: Seq<Seq<u8>>, bump: u8) -> Seq<Seq<u8>> {
    seeds.push(seq![bump])
}

/// `seeds` and `bump` derive exactly `address` for `program_id`.
pub open spec fn derives(
    seeds: Seq<Seq<u8>>,
    bump: u8,
    program_id: Seq<u8>,
    address: Seq<u8>,
) -> bool {
    program_address(with_bump(seeds, bump), program_id) == Some(address)
}

/// `address` is the canonical address of `seeds`: the one derived with the
/// largest bump, from 255 down to 1, that derives any.
pub open spec fn is_canonical(
    seeds: Seq<Seq<u8>>,
    program_id: Seq<u8>,
    address: Seq<u8>,
    bump: u8,
) -> bool {
    &&& 1 <= bump
    &&& derives(seeds, bump, program_id, address)
    &&& forall|b: u8|
        bump < b ==> program_address(#[trigger] with_bump(seeds, b), program_id) is None
}

/// No bump from 255 down to 1 derives an address from `seeds`.
pub open spec fn no_canonical(seeds: Seq<Seq<u8>>, program_id: Seq<u8>) -> bool {
    forall|b: u8| 1 <= b ==> program_address(#[trigger] with_bump(seeds, b), program_id) is None
}

/// The domain separator of position records: the bytes of `state`.
pub open spec fn state_tag() -> Seq<u8> {
    seq![115u8, 116u8, 97u8, 116u8, 101u8]
}

/// The domain separator of escrow accounts: the bytes of `wallet`.
pub open spec fn wallet_tag() -> Seq<u8> {
    seq![119u8, 97u8, 108u8, 108u8, 101u8, 116u8]
}

/// The seeds of the position of `owner` in `asset` under `application_idx`.
pub open spec fn position_seeds(owner: Seq<u8>, asset: Seq<u8>, application_idx: u64) -> Seq<
    Seq<u8>,
> {
    seq![state_tag(), owner, asset, spec_u64_to_le_bytes(application_idx)]
}

/// The seeds of the escrow of the position of `owner` in `asset` under
/// `application_idx`: the key of the position under the tag of escrows, so
/// that every position has an escrow of its own.
pub open spec fn escrow_seeds(owner: Seq<u8>, asset: Seq<u8>, application_idx: u64) -> Seq<
    Seq<u8>,
> {
    seq![wallet_tag(), owner, asset, spec_u64_to_le_bytes(application_idx)]
}

/// Positions with different keys have different seeds, for the record and
/// for the escrow: no two positions are derived from the same seeds, and no
/// two share the seeds of an escrow.
pub proof fn lemma_seeds_tell_keys_apart(
    owner: Seq<u8>,
    asset: Seq<u8>,
    application_idx: u64,
    other_owner: Seq<u8>,
    other_asset: Seq<u8>,
    other_idx: u64,
)
    requires
        owner != other_owner || asset != other_asset || application_idx != other_idx,
    ensures
        position_seeds(owner, asset, application_idx) != position_seeds(
            other_owner,
            other_asset,
            other_idx,
        ),
        escrow_seeds(owner, asset, application_idx) != escrow_seeds(
            other_owner,
            other_asset,
            other_idx,
        ),
{
    lemma_auto_spec_u64_to_from_le_bytes();
    let position = position_seeds(owner, asset, application_idx);
    let other_position = position_seeds(other_owner, other_asset, other_idx);
    let escrow = escrow_seeds(owner, asset, application_idx);
    let other_escrow = escrow_seeds(other_owner, other_asset, other_idx);
    assert(position[1] == owner && position[2] == asset && position[3] == spec_u64_to_le_bytes(
        application_idx,
    ));
    assert(other_position[1] == other_owner && other_position[2] == other_asset
        && other_position[3] == spec_u64_to_le_bytes(other_idx));
    assert(escrow[1] == owner && escrow[2] == asset && escrow[3] == spec_u64_to_le_bytes(
        application_idx,
    ));
    assert(other_escrow[1] == other_owner && other_escrow[2] == other_asset && other_escrow[3]
        == spec_u64_to_le_bytes(other_idx));
}

/// Calls `Pubkey::create_program_address` of `anchor_lang` on the seeds as
/// given. The result is the address it returns, and `None` for each of its
/// errors; it is a function of the seeds and the program id alone, which
/// `program_address` names.
#[verifier::external_body]
pub(crate) fn create_program_address(seeds: &Vec<Vec<u8>>, program_id: &Address) -> (derived:
    Option<Address>)
    ensures
        match derived {
            Some(address) => program_address(seeds_view(*seeds), program_id@) == Some(address@),
            None => program_address(seeds_view(*seeds), program_id@) is None,
        },
{
    let parts: Vec<&[u8]> = seeds.iter().map(|seed| seed.as_slice()).collect();
    let id = anchor_lang::prelude::Pubkey::new_from_array(program_id.bytes);
    match anchor_lang::prelude::Pubkey::create_program_address(&parts, &id) {
        Ok(key) => Some(Address { bytes: key.to_bytes() }),
        Err(_) => None,
    }
}

/// Calls `Pubkey::try_find_program_address` of `anchor_lang`, which appends
/// to the seeds one bump byte after another, from 255 down to 1, and returns
/// the first address that `create_program_address` derives, with its bump.
/// It returns `None` where no bump derives one, as is the case where the
/// seeds are too many or too long.
#[verifier::external_body]
pub(crate) fn try_find_program_address(seeds: &Vec<Vec<u8>>, program_id: &Address) -> (found:
    Option<(Address, u8)>)
    ensures
        match found {
            Some((address, bump)) => is_canonical(seeds_view(*seeds), program_id@, address@, bump),
            None => no_canonical(seeds_view(*seeds), program_id@),
        },
{
    let parts: Vec<&[u8]> = seeds.iter().map(|seed| seed.as_slice()).collect();
    let id = anchor_lang::prelude::Pubkey::new_from_array(program_id.bytes);
    match anchor_lang::prelude::Pubkey::try_find_program_address(&parts, &id) {
        Some((key, bump)) => Some((Address { bytes: key.to_bytes() }, bump)),
        None => None,
    }
}

/// The seeds of a position, without a bump.
pub fn state_seeds(user_sending: &Address, mint: &Address, application_idx: u64) -> (seeds: Vec<
    Vec<u8>,
>)
    ensures
        seeds_view(seeds) == position_seeds(user_sending@, mint@, application_idx),
{
    let tag: Vec<u8> = vec![115u8, 116u8, 97u8, 116u8, 101u8];
    assert(tag@ =~= state_tag());
    let seeds: Vec<Vec<u8>> = vec![
        tag,
        user_sending.to_vec(),
        mint.to_vec(),
        u64_to_le_bytes(application_idx),
    ];
    assert(seeds_view(seeds) =~= position_seeds(user_sending@, mint@, application_idx));
    seeds
}

/// The seeds of the escrow of a position, without a bump.
pub fn wallet_seeds(user_sending: &Address, mint: &Address, application_idx: u64) -> (seeds: Vec<
    Vec<u8>,
>)
    ensures
        seeds_view(seeds) == escrow_seeds(user_sending@, mint@, application_idx),
{
    let tag: Vec<u8> = vec![119u8, 97u8, 108u8, 108u8, 101u8, 116u8];
    assert(tag@ =~= wallet_tag());
    let seeds: Vec<Vec<u8>> = vec![
        tag,
        user_sending.to_vec(),
        mint.to_vec(),
        u64_to_le_bytes(application_idx),
    ];
    assert(seeds_view(seeds) =~= escrow_seeds(user_sending@, mint@, application_idx));
    seeds
}

/// Appends the bump, as a seed of one byte.
pub fn push_bump(seeds: Vec<Vec<u8>>, bump: u8) -> (signed: Vec<Vec<u8>>)
    ensures
        seeds_view(signed) == with_bump(seeds_view(seeds), bump),
{
    let mut signed = seeds;
    let last: Vec<u8> = vec![bump];
    assert(last@ =~= seq![bump]);
    signed.push(last);
    assert(seeds_view(signed) =~= with_bump(seeds_view(seeds), bump));
    signed
}

/// Accepts a derived address only if it is `expected`.
pub fn check_derived(derived: Option<Address>, expected: &Address) -> (checked: Result<
    (),
    ErrorCode,
>)
    ensures
        checked == if derived matches Some(address) && address@ == expected@ {
            Ok::<(), ErrorCode>(())
        } else {
            Err::<(), ErrorCode>(ErrorCode::AddressMismatch)
        },
{
    match derived {
        Some(address) => {
            if address == *expected {
                Ok(())
            } else {
                Err(ErrorCode::AddressMismatch)
            }
        },
        None => Err(ErrorCode::AddressMismatch),
    }
}

/// The position's own authority over its escrow: the address that signs,
/// and the seeds by which the program signs for it. It is no secret; the
/// ledger accepts it because the seeds derive the address for the program
/// that presents them.
#[derive(Clone, Debug, PartialEq, Eq)]
pub struct SigningAuthority {
    /// The address that signs.
    pub address: Address,
    /// The seeds that derive it, the bump last.
    pub seeds: Vec<Vec<u8>>,
}

impl SigningAuthority {
    /// The authority holds `seeds` and `bump`, and they derive its address.
    pub open spec fn stands_for(self, program_id: Seq<u8>, seeds: Seq<Seq<u8>>, bump: u8) -> bool {
        &&& seeds_view(self.seeds) == with_bump(seeds, bump)
        &&& derives(seeds, bump, program_id, self.address@)
    }
}

/// Some bump makes `address` the canonical address of `seeds`.
pub open spec fn has_canonical(seeds: Seq<Seq<u8>>, program_id: Seq<u8>, address: Seq<u8>) -> bool
{
    exists|bump: u8| is_canonical(seeds, program_id, address, bump)
}

/// The bump of the canonical address of `seeds`, where `address` is it.
pub open spec fn canonical_bump(seeds: Seq<Seq<u8>>, program_id: Seq<u8>, address: Seq<u8>) -> u8
{
    choose|bump: u8| is_canonical(seeds, program_id, address, bump)
}

/// Seeds have at most one canonical address, and it has one bump.
pub proof fn lemma_canonical_unique(
    seeds: Seq<Seq<u8>>,
    program_id: Seq<u8>,
    address: Seq<u8>,
    bump: u8,
    other: Seq<u8>,
    other_bump: u8,
)
    requires
        is_canonical(seeds, program_id, address, bump),
        is_canonical(seeds, program_id, other, other_bump),
    ensures
        address == other,
        bump == other_bump,
{
    if bump < other_bump {
        assert(program_address(with_bump(seeds, other_bump), program_id) is None);
    } else if other_bump < bump {
        assert(program_address(with_bump(seeds, bump), program_id) is None);
    }
}

/// Accepts what a search for the canonical address found only if it is
/// `expected`, and gives its bump.
pub fn check_canonical(found: Option<(Address, u8)>, expected: &Address) -> (checked: Result<
    u8,
    ErrorCode,
>)
    ensures
        checked == match found {
            Some((address, bump)) => if address@ == expected@ {
                Ok::<u8, ErrorCode>(bump)
            } else {
                Err::<u8, ErrorCode>(ErrorCode::AddressMismatch)
            },
            None => Err::<u8, ErrorCode>(ErrorCode::AddressMismatch),
        },
{
    match found {
        Some((address, bump)) => {
            if address == *expected {
                Ok(bump)
            } else {
                Err(ErrorCode::AddressMismatch)
            }
        },
        None => Err(ErrorCode::AddressMismatch),
    }
}

/// The authority of the account at `expected` to sign for its own creation
/// or its own funds, where `expected` is the canonical address of `seeds`: it
/// holds the seeds and the canonical bump.
pub fn canonical_signer(program_id: &Address, seeds: Vec<Vec<u8>>, expected: &Address) -> (signed:
    Result<SigningAuthority, ErrorCode>)
    ensures
        match signed {
            Ok(authority) => {
                &&& has_canonical(seeds_view(seeds), program_id@, expected@)
                &&& authority.address == *expected
                &&& authority.stands_for(
                    program_id@,
                    seeds_view(seeds),
                    canonical_bump(seeds_view(seeds), program_id@, expected@),
                )
            },
            Err(e) => {
                &&& e == ErrorCode::AddressMismatch
                &&& !has_canonical(seeds_view(seeds), program_id@, expected@)
            },
        },
{
    let found = try_find_program_address(&seeds, program_id);
    let ghost plain = seeds_view(seeds);
    match check_canonical(found, expected) {
        Ok(bump) => {
            proof {
                lemma_canonical_unique(
                    plain,
                    program_id@,
                    expected@,
                    bump,
                    expected@,
                    canonical_bump(plain, program_id@, expected@),
                );
            }
            Ok(SigningAuthority { address: *expected, seeds: push_bump(seeds, bump) })
        },
        Err(e) => {
            proof {
                assert forall|bump: u8| !is_canonical(plain, program_id@, expected@, bump) by {
                    if is_canonical(plain, program_id@, expected@, bump) {
                        match found {
                            Some((address, other_bump)) => {
                                lemma_canonical_unique(
                                    plain,
                                    program_id@,
                                    expected@,
                                    bump,
                                    address@,
                                    other_bump,
                                );
                            },
                            None => {
                                assert(program_address(with_bump(plain, bump), program_id@) is None);
                            },
                        }
                    }
                }
            }
            Err(e)
        },
    }
}

/// The canonical address of the position of `user_sending` in `mint` under
/// `application_idx`, with its bump; `None` where the key derives none.
pub fn find_state_address(
    program_id: &Address,
    user_sending: &Address,
    mint: &Address,
    application_idx: u64,
) -> (found: Option<(Address, u8)>)
    ensures
        match found {
            Some((address, bump)) => is_canonical(
                position_seeds(user_sending@, mint@, application_idx),
                program_id@,
                address@,
                bump,
            ),
            None => no_canonical(
                position_seeds(user_sending@, mint@, application_idx),
                program_id@,
            ),
        },
{
    let seeds = state_seeds(user_sending, mint, application_idx);
    try_find_program_address(&seeds, program_id)
}

/// The canonical address of the escrow of the position of `user_sending`
/// in `mint` under `application_idx`, with its bump; `None` where the key
/// derives none.
pub fn find_wallet_address(
    program_id: &Address,
    user_sending: &Address,
    mint: &Address,
    application_idx: u64,
) -> (found: Option<(Address, u8)>)
    ensures
        match found {
            Some((address, bump)) => is_canonical(
                escrow_seeds(user_sending@, mint@, application_idx),
                program_id@,
                address@,
                bump,
            ),
            None => no_canonical(
                escrow_seeds(user_sending@, mint@, application_idx),
                program_id@,
            ),
        },
{
    let seeds = wallet_seeds(user_sending, mint, application_idx);
    try_find_program_address(&seeds, program_id)
}

/// The authority of the position at `position` over its escrow, for the
/// operation under way. The key of the position and `bump` must derive
/// `position`; a bump that does not is refused, so that no caller gains
/// authority over the escrow of another position.
pub fn sign_for_position(
    program_id: &Address,
    position: &Address,
    owner: &Address,
    asset: &Address,
    application_index: u64,
    bump: u8,
) -> (signed: Result<SigningAuthority, ErrorCode>)
    ensures
        match signed {
            Ok(authority) => {
                &&& authority.address == *position
                &&& authority.stands_for(
                    program_id@,
                    position_seeds(owner@, asset@, application_index),
                    bump,
                )
            },
            Err(e) => {
                &&& e == ErrorCode::AddressMismatch
                &&& !derives(
                    position_seeds(owner@, asset@, application_index),
                    bump,
                    program_id@,
                    position@,
                )
            },
        },
{
    let seeds = push_bump(state_seeds(owner, asset, application_index), bump);
    let derived = create_program_address(&seeds, program_id);
    match check_derived(derived, position) {
        Ok(()) => Ok(SigningAuthority { address: *position, seeds }),
        Err(e) => Err(e),
    }
}

} // verus!
