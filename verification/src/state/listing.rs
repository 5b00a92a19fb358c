use crate::address::{lemma_address_ext, Address};
use crate::wire::{get_address, get_u64, le64, lemma_le64, put_address, put_u64};
use vstd::prelude::*;

verus! {

/// The record of an asset offered for sale at a fixed price.
#[derive(Clone, Copy, Debug)]
pub struct Listing {
    /// Who offers the asset, and who alone may withdraw it.
    pub maker: Address,
    /// The asset offered.
    pub maker_mint: Address,
    /// The price, in the smallest unit of the currency.
    pub price: u64,
    /// The bump with which the listing's authority is derived.
    pub bump: u8,
}

impl Listing {
    /// The number of bytes that a stored listing takes.
    pub const INIT_SPACE: usize = 73;

    /// The stored form of the listing: the maker, the asset, the price in
    /// eight bytes from the lowest up, and the bump.
    pub open spec fn encoding(self) -> Seq<u8> {
        self.maker@ + self.maker_mint@ + le64(self.price) + seq![self.bump]
    }

    /// Writes the listing in its stored form.
    pub fn to_bytes(&self) -> (r: Vec<u8>)
        ensures
            r@ == self.encoding(),
            r@.len() == Listing::INIT_SPACE,
    {
        let mut out: Vec<u8> = Vec::new();
        put_address(&mut out, &self.maker);
        put_address(&mut out, &self.maker_mint);
        put_u64(&mut out, self.price);
        out.push(self.bump);
        proof {
            lemma_le64(self.price, Seq::empty());
            assert(out@ =~= self.encoding());
        }
        out
    }

    /// Reads a listing from its stored form: 73 bytes, no more and no fewer.
    pub fn from_bytes(bytes: &[u8]) -> (r: Option<Listing>)
        ensures
            match r {
                Some(listing) => listing.encoding() == bytes@,
                None => bytes@.len() != Listing::INIT_SPACE,
            },
    {
        if bytes.len() != Listing::INIT_SPACE {
            return None;
        }
        let listing = Listing {
            maker: get_address(bytes, 0),
            maker_mint: get_address(bytes, 32),
            price: get_u64(bytes, 64),
            bump: bytes[72],
        };
        proof {
            assert(listing.encoding() =~= bytes@);
        }
        Some(listing)
    }
}

/// The stored form of a listing has 73 bytes and belongs to one listing only:
/// what `from_bytes` reads is what `to_bytes` wrote.
pub proof fn law_listing_encoding_is_exact(a: Listing, b: Listing)
    ensures
        a.encoding().len() == Listing::INIT_SPACE,
        a.encoding() == b.encoding() ==> a == b,
{
    lemma_le64(a.price, Seq::empty());
    lemma_le64(b.price, Seq::empty());
    if a.encoding() == b.encoding() {
        let e = a.encoding();
        let f = b.encoding();
        assert(a.maker@ =~= e.subrange(0, 32));
        assert(b.maker@ =~= f.subrange(0, 32));
        assert(a.maker_mint@ =~= e.subrange(32, 64));
        assert(b.maker_mint@ =~= f.subrange(32, 64));
        assert(le64(a.price) =~= e.subrange(64, 72));
        assert(le64(b.price) =~= f.subrange(64, 72));
        assert(a.bump == e[72]);
        assert(b.bump == f[72]);
        lemma_address_ext(a.maker, b.maker);
        lemma_address_ext(a.maker_mint, b.maker_mint);
    }
}

} // verus!
