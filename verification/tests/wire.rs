use anchor_lang::AnchorSerialize;
use marketplace::address::Address;
use marketplace::state::listing::Listing;
use marketplace::table::Duplicate;
use marketplace::state::marketplace::{Marketplace, MAX_FEE_BPS, MAX_NAME_LEN};
use marketplace::wire::{
    get_address, get_text, get_u16, get_u32, get_u64, put_address, put_bytes, put_u16, put_u32,
    put_u64,
};

fn address(n: u8) -> Address {
    Address::new([n; 32])
}

fn listing() -> Listing {
    Listing { maker: address(3), maker_mint: address(5), price: 0x0102_0304_0506_0708, bump: 254 }
}

fn config(name: &str) -> Marketplace {
    Marketplace {
        admin: address(1),
        fee: 250,
        bump: 255,
        treasury_bump: 254,
        rewards_bump: 253,
        name: String::from(name),
    }
}

#[test]
fn numbers_are_written_from_the_lowest_byte_up() {
    let mut out = vec![9u8];
    put_u16(&mut out, 0x0102);
    put_u32(&mut out, 0x0304_0506);
    put_u64(&mut out, 0x0708_090a_0b0c_0d0e);
    assert_eq!(
        out,
        vec![9, 2, 1, 6, 5, 4, 3, 0x0e, 0x0d, 0x0c, 0x0b, 0x0a, 9, 8, 7]
    );
    assert_eq!(get_u16(&out, 1), 0x0102);
    assert_eq!(get_u32(&out, 3), 0x0304_0506);
    assert_eq!(get_u64(&out, 7), 0x0708_090a_0b0c_0d0e);
}

#[test]
fn numbers_at_the_ends_of_their_range() {
    let mut out = Vec::new();
    put_u16(&mut out, u16::MAX);
    put_u32(&mut out, u32::MAX);
    put_u64(&mut out, u64::MAX);
    put_u16(&mut out, 0);
    put_u32(&mut out, 0);
    put_u64(&mut out, 0);
    assert_eq!(out.len(), 28);
    assert!(out[..14].iter().all(|b| *b == 255));
    assert!(out[14..].iter().all(|b| *b == 0));
    assert_eq!(get_u16(&out, 0), u16::MAX);
    assert_eq!(get_u32(&out, 2), u32::MAX);
    assert_eq!(get_u64(&out, 6), u64::MAX);
    assert_eq!(get_u64(&out, 20), 0);
    let mut one = Vec::new();
    put_u64(&mut one, 1u64 << 56);
    assert_eq!(one, vec![0, 0, 0, 0, 0, 0, 0, 1]);
    assert_eq!(get_u64(&one, 0), 1u64 << 56);
}

#[test]
fn numbers_agree_with_the_standard_encoding() {
    let values: [u64; 6] = [0, 1, 255, 256, 0xdead_beef_0bad_f00d, u64::MAX];
    for v in values {
        let mut out = Vec::new();
        put_u64(&mut out, v);
        assert_eq!(out, v.to_le_bytes().to_vec());
        assert_eq!(get_u64(&out, 0), v);
        let mut out = Vec::new();
        put_u32(&mut out, v as u32);
        assert_eq!(out, (v as u32).to_le_bytes().to_vec());
        assert_eq!(get_u32(&out, 0), v as u32);
        let mut out = Vec::new();
        put_u16(&mut out, v as u16);
        assert_eq!(out, (v as u16).to_le_bytes().to_vec());
        assert_eq!(get_u16(&out, 0), v as u16);
    }
}

#[test]
fn addresses_and_bytes_are_written_as_they_are() {
    let mut out = vec![7u8];
    put_address(&mut out, &address(4));
    put_bytes(&mut out, &[1, 2, 3]);
    put_bytes(&mut out, &[]);
    assert_eq!(out.len(), 36);
    assert_eq!(out[0], 7);
    assert!(out[1..33].iter().all(|b| *b == 4));
    assert_eq!(&out[33..], &[1, 2, 3]);
    assert_eq!(get_address(&out, 1).bytes, [4u8; 32]);
    let mixed = get_address(&out, 4);
    assert_eq!(mixed.bytes[28], 4);
    assert_eq!(&mixed.bytes[29..], &[1, 2, 3]);
}

#[test]
fn text_is_read_where_the_bytes_are_text() {
    let bytes = [0u8, 0xe2, 0x82, 0xac, b'a'];
    assert_eq!(get_text(&bytes, 1), Some(String::from("\u{20ac}a")));
    assert_eq!(get_text(&bytes, 4), Some(String::from("a")));
    assert_eq!(get_text(&bytes, 5), Some(String::new()));
    // from the middle of a character on
    assert_eq!(get_text(&bytes, 2), None);
    assert_eq!(get_text(&[0xff], 0), None);
    // a surrogate and an overlong form
    assert_eq!(get_text(&[0xed, 0xa0, 0x80], 0), None);
    assert_eq!(get_text(&[0xc0, 0x80], 0), None);
    // the last scalar, the first value past it, and a lead byte of five bytes
    assert_eq!(get_text(&[0xf4, 0x8f, 0xbf, 0xbf], 0), Some(String::from("\u{10ffff}")));
    assert_eq!(get_text(&[0xf4, 0x90, 0x80, 0x80], 0), None);
    assert_eq!(get_text(&[0xf8, 0x88, 0x80, 0x80, 0x80], 0), None);
    // a character cut short
    assert_eq!(get_text(&[0xe2, 0x82], 0), None);
}

#[test]
fn a_listing_is_stored_field_by_field() {
    let bytes = listing().to_bytes();
    assert_eq!(bytes.len(), 73);
    assert_eq!(Listing::INIT_SPACE, 73);
    assert!(bytes[..32].iter().all(|b| *b == 3));
    assert!(bytes[32..64].iter().all(|b| *b == 5));
    assert_eq!(&bytes[64..72], &[8, 7, 6, 5, 4, 3, 2, 1]);
    assert_eq!(bytes[72], 254);
}

#[test]
fn a_listing_is_stored_as_the_host_stores_it() {
    let l = listing();
    let expected = (l.maker.bytes, l.maker_mint.bytes, l.price, l.bump).try_to_vec().unwrap();
    assert_eq!(l.to_bytes(), expected);
}

#[test]
fn a_listing_is_read_back_as_written() {
    let l = listing();
    let back = Listing::from_bytes(&l.to_bytes()).unwrap();
    assert_eq!(back.maker.bytes, l.maker.bytes);
    assert_eq!(back.maker_mint.bytes, l.maker_mint.bytes);
    assert_eq!(back.price, l.price);
    assert_eq!(back.bump, l.bump);
    let mut bytes = vec![0u8; 73];
    bytes[0] = 1;
    bytes[63] = 2;
    bytes[64] = 3;
    bytes[71] = 4;
    bytes[72] = 5;
    let read = Listing::from_bytes(&bytes).unwrap();
    assert_eq!(read.maker.bytes[0], 1);
    assert_eq!(read.maker_mint.bytes[31], 2);
    assert_eq!(read.price, 3 + (4u64 << 56));
    assert_eq!(read.bump, 5);
    assert_eq!(read.to_bytes(), bytes);
}

#[test]
fn a_listing_has_73_bytes_exactly() {
    let bytes = listing().to_bytes();
    assert!(Listing::from_bytes(&bytes[..72]).is_none());
    let mut longer = bytes.clone();
    longer.push(0);
    assert!(Listing::from_bytes(&longer).is_none());
    assert!(Listing::from_bytes(&[]).is_none());
}

#[test]
fn a_configuration_is_stored_field_by_field() {
    let bytes = config("bazaar").to_bytes();
    assert_eq!(bytes.len(), 47);
    assert!(bytes[..32].iter().all(|b| *b == 1));
    assert_eq!(&bytes[32..34], &[250, 0]);
    assert_eq!(&bytes[34..37], &[255, 254, 253]);
    assert_eq!(&bytes[37..41], &[6, 0, 0, 0]);
    assert_eq!(&bytes[41..], b"bazaar");
    assert_eq!(config("").to_bytes().len(), 41);
    assert_eq!(config(&"a".repeat(32)).to_bytes().len(), Marketplace::INIT_SPACE);
    assert_eq!(Marketplace::INIT_SPACE, 73);
    assert_eq!(MAX_NAME_LEN, 32);
    assert_eq!(MAX_FEE_BPS, 10_000);
}

#[test]
fn a_configuration_is_stored_as_the_host_stores_it() {
    for name in ["", "bazaar", "march\u{e9} \u{20ac}", "0123456789abcdef0123456789abcdef"] {
        let mut m = config(name);
        m.fee = 0x1234 % 10_001;
        let expected =
            (m.admin.bytes, m.fee, m.bump, m.treasury_bump, m.rewards_bump, m.name.clone())
                .try_to_vec()
                .unwrap();
        assert_eq!(m.to_bytes(), expected);
    }
}

#[test]
fn a_configuration_is_read_back_as_written() {
    for name in ["", "bazaar", "march\u{e9} \u{20ac}", "0123456789abcdef0123456789abcdef"] {
        let m = config(name);
        let bytes = m.to_bytes();
        let back = Marketplace::from_bytes(&bytes).unwrap();
        assert_eq!(back.admin.bytes, m.admin.bytes);
        assert_eq!(back.fee, m.fee);
        assert_eq!(back.bump, m.bump);
        assert_eq!(back.treasury_bump, m.treasury_bump);
        assert_eq!(back.rewards_bump, m.rewards_bump);
        assert_eq!(back.name, m.name);
        assert_eq!(back.to_bytes(), bytes);
        let copy = m.duplicate();
        assert_eq!(copy.to_bytes(), bytes);
    }
}

#[test]
fn a_configuration_is_read_only_from_its_stored_form() {
    let good = config("bazaar").to_bytes();
    assert!(Marketplace::from_bytes(&good).is_some());
    assert!(Marketplace::from_bytes(&good[..40]).is_none());
    assert!(Marketplace::from_bytes(&good[..46]).is_none());
    let mut longer = good.clone();
    longer.push(b'!');
    assert!(Marketplace::from_bytes(&longer).is_none());
    // a fee rate over the whole
    let mut dear = good.clone();
    dear[32] = 0x11;
    dear[33] = 0x27;
    assert!(Marketplace::from_bytes(&dear).is_none());
    dear[32] = 0x10;
    assert_eq!(Marketplace::from_bytes(&dear).unwrap().fee, 10_000);
    // a name of 33 bytes
    let mut long = config(&"a".repeat(32)).to_bytes();
    assert!(Marketplace::from_bytes(&long).is_some());
    long[37] = 33;
    long.push(b'a');
    assert!(Marketplace::from_bytes(&long).is_none());
    // a length that lies in its high bytes
    let mut high = good.clone();
    high[40] = 1;
    assert!(Marketplace::from_bytes(&high).is_none());
    // a name that is no text
    let mut broken = good.clone();
    broken[41] = 0xff;
    assert!(Marketplace::from_bytes(&broken).is_none());
}
