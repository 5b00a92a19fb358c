use crate::address::Address;
use crate::error::MarketplaceError;
use crate::ledger::{Ledger, LedgerState, ListingAccount};
use vstd::prelude::*;

verus! {

/// The listing that an instruction names, as `s` holds it: the listing of
/// `mint` on `marketplace`, made by `maker`, with its vault under `listing`.
/// An instruction is refused where the marketplace is not configured, where
/// the asset is not listed on it, where the listing was made by another (with
/// the error `stranger`), and where the vault is under another authority.
pub open spec fn resolved(
    s: LedgerState,
    marketplace: Address,
    mint: Address,
    maker: Address,
    listing: Address,
    stranger: MarketplaceError,
) -> Result<ListingAccount, MarketplaceError> {
    if !s.serves(marketplace) {
        Err(MarketplaceError::MarketplaceNotFound)
    } else if !s.lists(marketplace, mint) {
        Err(MarketplaceError::ListingNotFound)
    } else if s.listings[mint].listing.maker != maker {
        Err(stranger)
    } else if s.listings[mint].vault.authority != listing {
        Err(MarketplaceError::InvalidAuthority)
    } else {
        Ok(s.listings[mint])
    }
}

/// Whether a marketplace is configured under `address`.
pub fn serves(ledger: &Ledger, address: &Address) -> (r: bool)
    requires
        ledger.wf(),
    ensures
        r == ledger@.serves(*address),
{
    ledger.market(address).is_some()
}

/// Looks up the listing that an instruction names and holds it against what
/// the instruction says of it.
pub fn resolve(
    ledger: &Ledger,
    marketplace: &Address,
    mint: &Address,
    maker: &Address,
    listing: &Address,
    stranger: MarketplaceError,
) -> (r: Result<ListingAccount, MarketplaceError>)
    requires
        ledger.wf(),
    ensures
        r == resolved(ledger@, *marketplace, *mint, *maker, *listing, stranger),
{
    if !serves(ledger, marketplace) {
        return Err(MarketplaceError::MarketplaceNotFound);
    }
    let account = match ledger.listing_of(mint) {
        Some(a) => a,
        None => {
            return Err(MarketplaceError::ListingNotFound);
        },
    };
    if !account.marketplace.same(marketplace) {
        return Err(MarketplaceError::ListingNotFound);
    }
    if !account.listing.maker.same(maker) {
        return Err(stranger);
    }
    if !account.vault.authority.same(listing) {
        return Err(MarketplaceError::InvalidAuthority);
    }
    Ok(account)
}

} // verus!
