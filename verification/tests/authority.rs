use anchor_lang::prelude::Pubkey;
use marketplace::address::Address;
use marketplace::authority::{confirms, id, listing_authority};
use std::str::FromStr;

fn address(n: u8) -> Address {
    Address::new([n; 32])
}

fn program() -> Pubkey {
    Pubkey::new_from_array(id().bytes)
}

#[test]
fn program_id_is_the_declared_one() {
    let declared = Pubkey::from_str("Ho3jBBGmZntNnvaYcsM6AbyjDbTKzrC6eK4vfRxyoBHS").unwrap();
    assert_eq!(id().bytes, declared.to_bytes());
}

#[test]
fn listing_authority_is_the_program_derived_address() {
    let market = address(7);
    let mint = address(9);
    let (expected, bump) =
        Pubkey::find_program_address(&[&market.bytes[..], &mint.bytes[..]], &program());
    let derived = listing_authority(&market, &mint, bump).unwrap();
    assert_eq!(derived.bytes, expected.to_bytes());
    assert_ne!(derived.bytes, market.bytes);
    assert_ne!(derived.bytes, mint.bytes);
    assert_ne!(derived.bytes, id().bytes);
}

#[test]
fn listing_authority_agrees_with_the_host_on_every_bump() {
    let market = address(1);
    let mint = address(2);
    let mut derived_some = 0;
    let mut derived_none = 0;
    for bump in 0..=u8::MAX {
        let expected = Pubkey::create_program_address(
            &[&market.bytes[..], &mint.bytes[..], &[bump]],
            &program(),
        )
        .ok()
        .map(|key| key.to_bytes());
        let derived = listing_authority(&market, &mint, bump).map(|a| a.bytes);
        assert_eq!(derived, expected);
        if derived.is_some() {
            derived_some += 1;
        } else {
            derived_none += 1;
        }
    }
    // about half of all candidates lie on the curve and derive nothing
    assert!(derived_some > 0);
    assert!(derived_none > 0);
}

#[test]
fn listing_authority_depends_on_each_seed() {
    let market = address(1);
    let mint = address(2);
    let (_, bump) =
        Pubkey::find_program_address(&[&market.bytes[..], &mint.bytes[..]], &program());
    let base = listing_authority(&market, &mint, bump).unwrap();
    let again = listing_authority(&market, &mint, bump).unwrap();
    assert_eq!(base.bytes, again.bytes);
    if let Some(other) = listing_authority(&mint, &market, bump) {
        assert_ne!(other.bytes, base.bytes);
    }
    if let Some(other) = listing_authority(&market, &address(3), bump) {
        assert_ne!(other.bytes, base.bytes);
    }
    if let Some(other) = listing_authority(&market, &mint, bump.wrapping_sub(1)) {
        assert_ne!(other.bytes, base.bytes);
    }
}

#[test]
fn confirms_only_the_derived_address() {
    let a = address(4);
    let b = address(5);
    assert!(confirms(Some(a), &a));
    assert!(!confirms(Some(a), &b));
    assert!(!confirms(None, &a));
}

#[test]
fn addresses_compare_by_their_bytes() {
    let mut bytes = [0u8; 32];
    bytes[31] = 1;
    let a = Address::new(bytes);
    let b = Address::new(bytes);
    assert!(a.same(&b));
    bytes[31] = 2;
    assert!(!a.same(&Address::new(bytes)));
    bytes[31] = 1;
    bytes[0] = 1;
    assert!(!a.same(&Address::new(bytes)));
}
