use crate::address::Address;
use anchor_lang::prelude::Pubkey;
use vstd::prelude::*;

verus! {

/// The address that the host derives from a list of seeds for a program, where
/// the seeds yield one. The same seeds and program give the same answer
/// wherever it is asked.
pub uninterp spec fn derived_address(seeds: Seq<Seq<u8>>, program: Seq<u8>) -> Option<Seq<u8>>;

/// The identity under which the marketplace program derives its authorities.
pub open spec fn program_id() -> Address {
    Address {
        bytes: [
            249u8, 134u8, 202u8, 169u8, 187u8, 7u8, 224u8, 180u8,
            100u8, 102u8, 253u8, 252u8, 184u8, 158u8, 76u8, 19u8,
            21u8, 115u8, 168u8, 211u8, 185u8, 250u8, 159u8, 95u8,
            131u8, 238u8, 71u8, 197u8, 50u8, 51u8, 195u8, 49u8,
        ],
    }
}

/// The identity under which the marketplace program derives its authorities.
pub fn id() -> (r: Address)
    ensures
        r == program_id(),
{
    Address {
        bytes: [
            249u8, 134u8, 202u8, 169u8, 187u8, 7u8, 224u8, 180u8,
            100u8, 102u8, 253u8, 252u8, 184u8, 158u8, 76u8, 19u8,
            21u8, 115u8, 168u8, 211u8, 185u8, 250u8, 159u8, 95u8,
            131u8, 238u8, 71u8, 197u8, 50u8, 51u8, 195u8, 49u8,
        ],
    }
}

/// The seeds of a listing's authority: the marketplace, the asset, and one
/// byte that tells apart the candidates for the same pair.
pub open spec fn listing_seeds(marketplace: Address, mint: Address, bump: u8) -> Seq<Seq<u8>> {
    seq![marketplace@, mint@, seq![bump]]
}

/// The bytes of an address that may be missing.
pub open spec fn bytes_of(address: Option<Address>) -> Option<Seq<u8>> {
    match address {
        Some(a) => Some(a@),
        None => None,
    }
}

/// The authority that the host derives for the listing of `mint` on
/// `marketplace` under `bump`, where it derives one.
pub open spec fn listing_authority_of(marketplace: Address, mint: Address, bump: u8) -> Option<
    Seq<u8>,
> {
    derived_address(listing_seeds(marketplace, mint, bump), program_id()@)
}

/// Whether `claimed` is the authority that the host derives for the listing of
/// `mint` on `marketplace` under `bump`.
pub open spec fn is_listing_authority(
    marketplace: Address,
    mint: Address,
    bump: u8,
    claimed: Address,
) -> bool {
    listing_authority_of(marketplace, mint, bump) == Some(claimed@)
}

/// Calls `Pubkey::create_program_address` on the three seeds `first`, `second`
/// and the single byte `bump`. Assumed, not proved: what comes back is the
/// address that the host derives from exactly these seeds for `program`, and
/// nothing comes back where it derives none.
#[verifier::external_body]
fn create_program_address(first: &Address, second: &Address, bump: u8, program: &Address) -> (r:
    Option<Address>)
    ensures
        match r {
            Some(a) => derived_address(seq![first@, second@, seq![bump]], program@) == Some(a@),
            None => derived_address(seq![first@, second@, seq![bump]], program@) is None,
        },
{
    let program_id = Pubkey::new_from_array(program.bytes);
    let seeds: [&[u8]; 3] = [&first.bytes[..], &second.bytes[..], &[bump]];
    match Pubkey::create_program_address(&seeds, &program_id) {
        Ok(key) => Some(Address { bytes: key.to_bytes() }),
        Err(_) => None,
    }
}

/// Derives anew the authority of the listing of `mint` on `marketplace` under
/// `bump`. No key is stored for it: whoever holds the seeds arrives at the same
/// address.
pub fn listing_authority(marketplace: &Address, mint: &Address, bump: u8) -> (r: Option<Address>)
    ensures
        bytes_of(r) == listing_authority_of(*marketplace, *mint, bump),
{
    let program = id();
    create_program_address(marketplace, mint, bump, &program)
}

/// Whether the address derived for a listing is the one that was claimed for it.
pub fn confirms(derived: Option<Address>, claimed: &Address) -> (r: bool)
    ensures
        r == (derived == Some(*claimed)),
        r == (bytes_of(derived) == Some(claimed@)),
{
    match derived {
        Some(a) => {
            proof {
                if a@ == claimed@ {
                    crate::address::lemma_address_ext(a, *claimed);
                }
            }
            a.same(claimed)
        },
        None => false,
    }
}

} // verus!
