use staking::address::Address;
use staking::custody::{
    canonical_signer, check_canonical, check_derived, find_state_address, find_wallet_address,
    push_bump, sign_for_position, state_seeds, wallet_seeds,
};
use staking::errors::ErrorCode;

fn addr(byte: u8) -> Address {
    Address::new([byte; 32])
}

fn program() -> Address {
    addr(7)
}

fn owner() -> Address {
    addr(1)
}

fn mint() -> Address {
    addr(2)
}

// The addresses below were computed apart from this crate: the SHA-256 of the
// seeds, the bump, the program id and the marker `ProgramDerivedAddress`, for
// the largest bump whose digest is not a point of the curve.
const STATE_1: [u8; 32] = [
    176, 136, 16, 179, 86, 219, 138, 135, 181, 98, 106, 209, 187, 66, 201, 129, 2, 246, 135, 245,
    105, 140, 57, 25, 79, 182, 165, 62, 153, 24, 18, 200,
];
const WALLET_1: [u8; 32] = [
    224, 220, 64, 178, 241, 241, 97, 249, 216, 229, 211, 4, 174, 61, 61, 39, 72, 177, 187, 220,
    171, 211, 168, 172, 252, 14, 212, 111, 50, 181, 221, 172,
];
const WALLET_1_OF_ANOTHER_OWNER: [u8; 32] = [
    236, 51, 102, 52, 146, 133, 64, 253, 247, 115, 8, 197, 19, 166, 75, 177, 110, 5, 53, 156,
    183, 54, 120, 48, 16, 37, 108, 227, 55, 244, 69, 97,
];
const STATE_2: [u8; 32] = [
    185, 214, 27, 182, 4, 174, 107, 129, 220, 160, 128, 248, 192, 138, 35, 249, 246, 133, 14, 26,
    52, 125, 237, 228, 254, 3, 181, 131, 183, 197, 85, 247,
];
const STATE_2_BUMP_253: [u8; 32] = [
    31, 105, 41, 163, 46, 239, 224, 216, 183, 40, 204, 16, 206, 92, 29, 88, 114, 192, 36, 201,
    156, 53, 149, 187, 3, 201, 51, 29, 235, 182, 222, 95,
];
const WALLET_2: [u8; 32] = [
    87, 103, 93, 119, 90, 1, 68, 144, 127, 137, 10, 24, 243, 78, 92, 55, 182, 67, 144, 248, 55,
    39, 212, 248, 85, 166, 213, 214, 59, 134, 78, 68,
];

#[test]
fn addresses_compare_by_their_bytes() {
    assert_eq!(addr(3), addr(3));
    assert_ne!(addr(3), addr(4));
    let mut bytes = [9u8; 32];
    bytes[31] = 8;
    assert_ne!(Address::new(bytes), addr(9));
    bytes[31] = 9;
    assert_eq!(Address::new(bytes), addr(9));
    assert_eq!(addr(5).to_vec(), vec![5u8; 32]);
    assert_eq!(Address::new(STATE_1).bytes, STATE_1);
}

#[test]
fn state_seeds_are_tag_owner_asset_index() {
    let seeds = state_seeds(&owner(), &mint(), 0x0102_0304_0506_0708);
    assert_eq!(
        seeds,
        vec![
            vec![b's', b't', b'a', b't', b'e'],
            vec![1u8; 32],
            vec![2u8; 32],
            vec![8, 7, 6, 5, 4, 3, 2, 1],
        ]
    );
}

#[test]
fn wallet_seeds_are_tag_owner_asset_index() {
    let seeds = wallet_seeds(&owner(), &mint(), 1);
    assert_eq!(
        seeds,
        vec![
            vec![b'w', b'a', b'l', b'l', b'e', b't'],
            vec![1u8; 32],
            vec![2u8; 32],
            vec![1, 0, 0, 0, 0, 0, 0, 0],
        ]
    );
}

#[test]
fn seeds_of_different_keys_differ() {
    let keys = [(addr(1), addr(2), 1u64), (addr(3), addr(2), 1), (addr(1), addr(3), 1), (addr(1), addr(2), 2)];
    for (i, a) in keys.iter().enumerate() {
        for b in keys.iter().skip(i + 1) {
            assert_ne!(state_seeds(&a.0, &a.1, a.2), state_seeds(&b.0, &b.1, b.2));
            assert_ne!(wallet_seeds(&a.0, &a.1, a.2), wallet_seeds(&b.0, &b.1, b.2));
        }
        assert_ne!(state_seeds(&a.0, &a.1, a.2), wallet_seeds(&a.0, &a.1, a.2));
    }
}

#[test]
fn bump_is_the_last_seed() {
    let seeds = push_bump(wallet_seeds(&owner(), &mint(), 1), 251);
    assert_eq!(seeds.len(), 5);
    assert_eq!(seeds[4], vec![251u8]);
    assert_eq!(seeds[..4].to_vec(), wallet_seeds(&owner(), &mint(), 1));
}

#[test]
fn canonical_addresses_are_the_known_ones() {
    assert_eq!(
        find_state_address(&program(), &owner(), &mint(), 1),
        Some((Address::new(STATE_1), 255))
    );
    assert_eq!(
        find_wallet_address(&program(), &owner(), &mint(), 1),
        Some((Address::new(WALLET_1), 255))
    );
    // 255 and 254 derive no address for this key.
    assert_eq!(
        find_wallet_address(&program(), &addr(3), &mint(), 1),
        Some((Address::new(WALLET_1_OF_ANOTHER_OWNER), 253))
    );
    assert_eq!(
        find_state_address(&program(), &owner(), &mint(), 2),
        Some((Address::new(STATE_2), 254))
    );
    assert_eq!(
        find_wallet_address(&program(), &owner(), &mint(), 2),
        Some((Address::new(WALLET_2), 254))
    );
}

#[test]
fn every_part_of_the_key_changes_the_address() {
    let (base, _) = find_state_address(&program(), &owner(), &mint(), 1).unwrap();
    let (other_owner, _) = find_state_address(&program(), &addr(3), &mint(), 1).unwrap();
    let (other_mint, _) = find_state_address(&program(), &owner(), &addr(3), 1).unwrap();
    let (other_index, _) = find_state_address(&program(), &owner(), &mint(), 3).unwrap();
    let (other_program, _) = find_state_address(&addr(8), &owner(), &mint(), 1).unwrap();
    let all = [base, other_owner, other_mint, other_index, other_program];
    for (i, a) in all.iter().enumerate() {
        for b in all.iter().skip(i + 1) {
            assert_ne!(a, b);
        }
        assert_ne!(*a, program());
        assert_ne!(*a, owner());
        assert_ne!(*a, mint());
    }
    let (escrow, _) = find_wallet_address(&program(), &owner(), &mint(), 1).unwrap();
    let (others_escrow, _) = find_wallet_address(&program(), &addr(3), &mint(), 1).unwrap();
    let (escrow_of_other_mint, _) = find_wallet_address(&program(), &owner(), &addr(3), 1).unwrap();
    let (escrow_of_other_index, _) = find_wallet_address(&program(), &owner(), &mint(), 3).unwrap();
    let escrows = [escrow, others_escrow, escrow_of_other_mint, escrow_of_other_index];
    for (i, a) in escrows.iter().enumerate() {
        for b in escrows.iter().skip(i + 1) {
            assert_ne!(a, b);
        }
        for position in all.iter() {
            assert_ne!(a, position);
        }
    }
}

#[test]
fn signing_takes_the_bump_that_derives_the_position() {
    let position = Address::new(STATE_1);
    let authority = sign_for_position(&program(), &position, &owner(), &mint(), 1, 255).unwrap();
    assert_eq!(authority.address, position);
    assert_eq!(authority.seeds, push_bump(state_seeds(&owner(), &mint(), 1), 255));
}

#[test]
fn signing_refuses_a_bump_that_does_not_derive_the_position() {
    let position = Address::new(STATE_1);
    for bump in [0u8, 1, 128, 253, 254] {
        assert_eq!(
            sign_for_position(&program(), &position, &owner(), &mint(), 1, bump),
            Err(ErrorCode::AddressMismatch)
        );
    }
    // Bump 255 derives no address at all for this key.
    assert_eq!(
        sign_for_position(&program(), &Address::new(STATE_2), &owner(), &mint(), 2, 255),
        Err(ErrorCode::AddressMismatch)
    );
}

#[test]
fn signing_refuses_the_key_of_another_position() {
    let position = Address::new(STATE_1);
    assert_eq!(
        sign_for_position(&program(), &position, &addr(3), &mint(), 1, 255),
        Err(ErrorCode::AddressMismatch)
    );
    assert_eq!(
        sign_for_position(&program(), &position, &owner(), &addr(3), 1, 255),
        Err(ErrorCode::AddressMismatch)
    );
    assert_eq!(
        sign_for_position(&program(), &position, &owner(), &mint(), 2, 255),
        Err(ErrorCode::AddressMismatch)
    );
    assert_eq!(
        sign_for_position(&addr(8), &position, &owner(), &mint(), 1, 255),
        Err(ErrorCode::AddressMismatch)
    );
    assert_eq!(
        sign_for_position(&program(), &program(), &owner(), &mint(), 1, 255),
        Err(ErrorCode::AddressMismatch)
    );
}

#[test]
fn a_lower_bump_derives_another_address_that_is_not_canonical() {
    let lower = Address::new(STATE_2_BUMP_253);
    // The seeds and bump 253 do derive it, so it can be signed for ...
    let authority = sign_for_position(&program(), &lower, &owner(), &mint(), 2, 253).unwrap();
    assert_eq!(authority.address, lower);
    // ... but the canonical address of the key is the one of bump 254.
    assert_eq!(
        canonical_signer(&program(), state_seeds(&owner(), &mint(), 2), &lower),
        Err(ErrorCode::AddressMismatch)
    );
    let canonical =
        canonical_signer(&program(), state_seeds(&owner(), &mint(), 2), &Address::new(STATE_2))
            .unwrap();
    assert_eq!(canonical.address, Address::new(STATE_2));
    assert_eq!(canonical.seeds, push_bump(state_seeds(&owner(), &mint(), 2), 254));
}

#[test]
fn seeds_that_are_too_many_or_too_long_derive_nothing() {
    let long = vec![vec![0u8; 33]];
    assert_eq!(canonical_signer(&program(), long, &addr(9)), Err(ErrorCode::AddressMismatch));
    let many = vec![vec![1u8]; 16];
    assert_eq!(canonical_signer(&program(), many, &addr(9)), Err(ErrorCode::AddressMismatch));
}

#[test]
fn a_derived_address_is_accepted_only_if_expected() {
    assert_eq!(check_derived(Some(addr(4)), &addr(4)), Ok(()));
    assert_eq!(check_derived(Some(addr(4)), &addr(5)), Err(ErrorCode::AddressMismatch));
    assert_eq!(check_derived(None, &addr(4)), Err(ErrorCode::AddressMismatch));
}

#[test]
fn a_canonical_address_is_accepted_only_if_expected() {
    assert_eq!(check_canonical(Some((addr(4), 200)), &addr(4)), Ok(200));
    assert_eq!(check_canonical(Some((addr(4), 200)), &addr(5)), Err(ErrorCode::AddressMismatch));
    assert_eq!(check_canonical(None, &addr(4)), Err(ErrorCode::AddressMismatch));
}
