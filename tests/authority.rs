use anchor_lang::solana_program::pubkey::Pubkey;
use nft_marketplace::{check_authority, derive_authority, same_key, Marketplace};
use std::collections::HashMap;

const PROGRAM: [u8; 32] = [7u8; 32];

#[test]
fn the_custodian_is_the_ledger_derived_address() {
    let (address, bump) = derive_authority(&PROGRAM).expect("a bump derives an address");
    let (expected, expected_bump) =
        Pubkey::find_program_address(&[b"authority"], &Pubkey::new_from_array(PROGRAM));
    assert_eq!(address, expected.to_bytes());
    assert_eq!(bump, expected_bump);
    assert_ne!(address, PROGRAM);
}

#[test]
fn only_the_deriving_bump_signs() {
    let (address, bump) = derive_authority(&PROGRAM).unwrap();
    assert!(check_authority(&PROGRAM, &address, bump));
    assert!(!check_authority(&PROGRAM, &PROGRAM, bump));
    let other = if bump == 255 { 254 } else { bump + 1 };
    assert!(!check_authority(&PROGRAM, &address, other));
}

#[test]
fn the_marketplace_keeps_the_derived_custodian() {
    let m = Marketplace::new(PROGRAM, HashMap::new(), HashMap::new()).unwrap();
    let (address, bump) = derive_authority(&PROGRAM).unwrap();
    assert_eq!(m.authority(), address);
    assert_eq!(m.authority_bump(), bump);
}

#[test]
fn keys_compare_byte_by_byte() {
    let a = [1u8; 32];
    let mut b = [1u8; 32];
    assert!(same_key(&a, &b));
    b[31] = 2;
    assert!(!same_key(&a, &b));
}
