use crate::address::{lemma_address_ext, Address};
use crate::table::Duplicate;
use crate::wire::{
    get_address, get_text, get_u16, get_u32, le16, le32, le_value, lemma_le16, lemma_le32,
    put_address, put_bytes, put_u16, put_u32,
};
use vstd::prelude::*;
use vstd::utf8::{encode_utf8, encode_utf8_decode_utf8, valid_utf8};

verus! {

/// The longest marketplace name, in bytes.
pub const MAX_NAME_LEN: usize = 32;

/// The highest fee rate a configuration may hold, in basis points.
pub const MAX_FEE_BPS: u16 = 10000;

/// The configuration of a marketplace, written once.
#[derive(Debug)]
pub struct Marketplace {
    /// Who configured the marketplace.
    pub admin: Address,
    /// The fee rate, in basis points.
    pub fee: u16,
    /// The bump of the marketplace's own address.
    pub bump: u8,
    /// The bump of the treasury's address.
    pub treasury_bump: u8,
    /// The bump of the rewards mint's address.
    pub rewards_bump: u8,
    /// The display name.
    pub name: String,
}

impl Duplicate for Marketplace {
    fn duplicate(&self) -> (r: Marketplace) {
        Marketplace {
            admin: self.admin,
            fee: self.fee,
            bump: self.bump,
            treasury_bump: self.treasury_bump,
            rewards_bump: self.rewards_bump,
            name: self.name.clone(),
        }
    }
}

/// The length of a name in bytes, as it is stored.
pub open spec fn name_len(name: Seq<char>) -> nat {
    encode_utf8(name).len()
}

/// Whether `bytes` are the stored form of a valid configuration: 37 bytes of
/// fixed fields with a fee rate of at most 100%, four bytes that give the
/// length of the name, at most 32, and as many bytes of text as they say.
pub open spec fn is_stored_marketplace(bytes: Seq<u8>) -> bool {
    &&& bytes.len() >= 41
    &&& le_value(bytes.subrange(32, 34)) <= MAX_FEE_BPS
    &&& le_value(bytes.subrange(37, 41)) <= MAX_NAME_LEN
    &&& bytes.len() == 41 + le_value(bytes.subrange(37, 41))
    &&& valid_utf8(bytes.subrange(41, bytes.len() as int))
}

impl Marketplace {
    /// The number of bytes that a stored configuration takes at most.
    pub const INIT_SPACE: usize = 73;

    /// What holds of every stored configuration: the fee rate is at most 100%
    /// and the name fits its bound.
    pub open spec fn valid(&self) -> bool {
        &&& self.fee <= MAX_FEE_BPS
        &&& name_len(self.name@) <= MAX_NAME_LEN
    }

    /// The stored form of the configuration: the admin, the fee rate in two
    /// bytes from the low one up, the three bumps, the length of the name in
    /// four bytes from the lowest up, and the name.
    pub open spec fn encoding(self) -> Seq<u8> {
        self.admin@ + le16(self.fee) + seq![self.bump, self.treasury_bump, self.rewards_bump]
            + le32(name_len(self.name@) as u32) + encode_utf8(self.name@)
    }

    /// Writes the configuration in its stored form.
    pub fn to_bytes(&self) -> (r: Vec<u8>)
        requires
            name_len(self.name@) <= u32::MAX,
        ensures
            r@ == self.encoding(),
            r@.len() == 41 + name_len(self.name@),
            self.valid() ==> r@.len() <= Marketplace::INIT_SPACE,
    {
        let name = self.name.as_str().as_bytes();
        let mut out: Vec<u8> = Vec::new();
        put_address(&mut out, &self.admin);
        put_u16(&mut out, self.fee);
        out.push(self.bump);
        out.push(self.treasury_bump);
        out.push(self.rewards_bump);
        put_u32(&mut out, name.len() as u32);
        put_bytes(&mut out, name);
        proof {
            lemma_le16(self.fee, Seq::empty());
            lemma_le32(name_len(self.name@) as u32, Seq::empty());
            assert(out@ =~= self.encoding());
        }
        out
    }

    /// Reads a valid configuration from its stored form.
    pub fn from_bytes(bytes: &[u8]) -> (r: Option<Marketplace>)
        ensures
            match r {
                Some(m) => m.valid() && m.encoding() == bytes@,
                None => !is_stored_marketplace(bytes@),
            },
    {
        if bytes.len() < 41 {
            return None;
        }
        let fee = get_u16(bytes, 32);
        let len = get_u32(bytes, 37);
        if fee > MAX_FEE_BPS || len > MAX_NAME_LEN as u32 || bytes.len() != 41 + len as usize {
            return None;
        }
        let name = match get_text(bytes, 41) {
            Some(s) => s,
            None => {
                return None;
            },
        };
        let m = Marketplace {
            admin: get_address(bytes, 0),
            fee,
            bump: bytes[34],
            treasury_bump: bytes[35],
            rewards_bump: bytes[36],
            name,
        };
        proof {
            assert(m.encoding() =~= bytes@);
        }
        Some(m)
    }
}

/// The stored form of a configuration belongs to one configuration only, and
/// that of a valid one is what `from_bytes` accepts: what it reads is what
/// `to_bytes` wrote.
pub proof fn law_marketplace_encoding_is_exact(a: Marketplace, b: Marketplace)
    requires
        name_len(a.name@) <= u32::MAX,
        name_len(b.name@) <= u32::MAX,
    ensures
        a.encoding().len() == 41 + name_len(a.name@),
        a.valid() ==> is_stored_marketplace(a.encoding()),
        a.encoding() == b.encoding() ==> {
            &&& a.admin == b.admin
            &&& a.fee == b.fee
            &&& a.bump == b.bump
            &&& a.treasury_bump == b.treasury_bump
            &&& a.rewards_bump == b.rewards_bump
            &&& a.name@ == b.name@
        },
{
    let e = a.encoding();
    let f = b.encoding();
    let na = name_len(a.name@);
    let nb = name_len(b.name@);
    lemma_le16(a.fee, Seq::empty());
    lemma_le16(b.fee, Seq::empty());
    lemma_le32(na as u32, Seq::empty());
    lemma_le32(nb as u32, Seq::empty());
    assert(a.admin@ =~= e.subrange(0, 32));
    assert(le16(a.fee) =~= e.subrange(32, 34));
    assert(le32(na as u32) =~= e.subrange(37, 41));
    assert(encode_utf8(a.name@) =~= e.subrange(41, e.len() as int));
    if a.valid() {
        vstd::utf8::encode_utf8_valid_utf8(a.name@);
    }
    if e == f {
        assert(b.admin@ =~= f.subrange(0, 32));
        assert(le16(b.fee) =~= f.subrange(32, 34));
        assert(le32(nb as u32) =~= f.subrange(37, 41));
        assert(encode_utf8(b.name@) =~= f.subrange(41, f.len() as int));
        assert(a.bump == e[34] && b.bump == f[34]);
        assert(a.treasury_bump == e[35] && b.treasury_bump == f[35]);
        assert(a.rewards_bump == e[36] && b.rewards_bump == f[36]);
        lemma_address_ext(a.admin, b.admin);
        encode_utf8_decode_utf8(a.name@);
        encode_utf8_decode_utf8(b.name@);
    }
}

} // verus!
