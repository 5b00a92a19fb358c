use crate::address::Address;
use crate::authority::{confirms, is_listing_authority};
use crate::error::MarketplaceError;
use crate::instructions::resolve::{resolve, resolved, serves};
use crate::ledger::{applied, Ledger, LedgerState, Outcome};
use crate::state::listing::Listing;
use vstd::prelude::*;

verus! {

/// The collection that an asset's metadata names, and whether the
/// collection has confirmed the asset as its member.
#[derive(Clone, Copy, Debug)]
pub struct Collection {
    pub verified: bool,
    pub key: Address,
}

/// What the authenticity oracle holds of an asset.
#[derive(Clone, Copy, Debug)]
pub struct Metadata {
    /// The asset that the record is about.
    pub mint: Address,
    /// The collection that the asset names, if it names one.
    pub collection: Option<Collection>,
}

/// The bump of the address that a listing derives.
#[derive(Clone, Copy, Debug)]
pub struct ListBumps {
    pub listing: u8,
}

/// The accounts of the instruction that lists an asset.
#[derive(Clone, Copy, Debug)]
pub struct List {
    /// Who offers the asset.
    pub seller: Address,
    /// The address of the new listing: the authority over its vault.
    pub listing: Address,
    /// The asset offered.
    pub seller_mint: Address,
    /// The marketplace on which it is offered.
    pub marketplace: Address,
    /// The collection that the asset is said to belong to.
    pub collection_mint: Address,
    /// What the oracle holds of the asset.
    pub metadata: Metadata,
}

impl List {
    /// What the oracle answers: its record must be about the asset offered, the
    /// asset must name the collection it is offered under, and the collection
    /// must have verified it.
    pub open spec fn membership(self) -> Result<(), MarketplaceError> {
        if self.metadata.mint != self.seller_mint {
            Err(MarketplaceError::InvalidCollection)
        } else {
            match self.metadata.collection {
                None => Err(MarketplaceError::InvalidCollection),
                Some(c) => if c.key != self.collection_mint {
                    Err(MarketplaceError::InvalidCollection)
                } else if !c.verified {
                    Err(MarketplaceError::UnverifiedCollection)
                } else {
                    Ok(())
                },
            }
        }
    }

    /// Asks the oracle's record whether the asset is a verified member of the
    /// collection it is offered under.
    pub fn check_collection(&self) -> (r: Result<(), MarketplaceError>)
        ensures
            r == self.membership(),
    {
        if !self.metadata.mint.same(&self.seller_mint) {
            return Err(MarketplaceError::InvalidCollection);
        }
        match self.metadata.collection {
            None => Err(MarketplaceError::InvalidCollection),
            Some(c) => {
                if !c.key.same(&self.collection_mint) {
                    Err(MarketplaceError::InvalidCollection)
                } else if !c.verified {
                    Err(MarketplaceError::UnverifiedCollection)
                } else {
                    Ok(())
                }
            },
        }
    }

    /// The record of the new listing.
    pub open spec fn new_listing(self, price: u64, bumps: ListBumps) -> Listing {
        Listing { maker: self.seller, maker_mint: self.seller_mint, price, bump: bumps.listing }
    }

    /// Writes the record of the new listing.
    pub fn create_listing(&self, price: u64, bumps: &ListBumps) -> (r: Listing)
        ensures
            r == self.new_listing(price, *bumps),
    {
        Listing { maker: self.seller, maker_mint: self.seller_mint, price, bump: bumps.listing }
    }

    /// What the first step does to the ledger `s`. It is refused where the
    /// oracle does not confirm the asset, where the marketplace is not
    /// configured, where the seller's own address is offered as the listing's
    /// (an authority has no key, so no seller is one), where the price is zero,
    /// where the asset is listed already and where the seller cannot pay the
    /// reserve. Else the listing is recorded with an empty vault under the
    /// listing's address, and the seller has paid the reserve.
    pub open spec fn list_outcome(self, s: LedgerState, price: u64, bumps: ListBumps) -> Outcome {
        match self.membership() {
            Err(e) => Err(e),
            Ok(_) => if !s.serves(self.marketplace) {
                Err(MarketplaceError::MarketplaceNotFound)
            } else if self.seller == self.listing {
                Err(MarketplaceError::InvalidAuthority)
            } else {
                s.open(self.marketplace, self.new_listing(price, bumps), self.listing)
            },
        }
    }

    /// The first step of listing: commits the record of the listing and its
    /// vault, before any asset moves.
    pub fn list(&self, ledger: &mut Ledger, price: u64, bumps: &ListBumps) -> (r: Result<
        (),
        MarketplaceError,
    >)
        requires
            old(ledger).wf(),
        ensures
            final(ledger).wf(),
            applied(old(ledger)@, final(ledger)@, r, self.list_outcome(old(ledger)@, price, *bumps)),
    {
        match self.check_collection() {
            Err(e) => {
                return Err(e);
            },
            Ok(_) => {},
        }
        if !serves(ledger, &self.marketplace) {
            return Err(MarketplaceError::MarketplaceNotFound);
        }
        if self.seller.same(&self.listing) {
            return Err(MarketplaceError::InvalidAuthority);
        }
        let listing = self.create_listing(price, bumps);
        ledger.open_listing(&self.marketplace, listing, self.listing)
    }

    /// What the second step does to the ledger `s`. It is refused where the
    /// seller has no listing of the asset under the listing's address, and
    /// where the seller does not hold the asset. Else the asset is in the vault.
    pub open spec fn deposit_outcome(self, s: LedgerState) -> Outcome {
        match resolved(
            s,
            self.marketplace,
            self.seller_mint,
            self.seller,
            self.listing,
            MarketplaceError::Unauthorized,
        ) {
            Err(e) => Err(e),
            Ok(_) => s.move_asset(self.seller_mint, self.seller, self.listing),
        }
    }

    /// The second step of listing: moves the asset from the seller into the
    /// vault of the listing.
    pub fn deposit_nft(&self, ledger: &mut Ledger) -> (r: Result<(), MarketplaceError>)
        requires
            old(ledger).wf(),
        ensures
            final(ledger).wf(),
            applied(old(ledger)@, final(ledger)@, r, self.deposit_outcome(old(ledger)@)),
    {
        match resolve(
            ledger,
            &self.marketplace,
            &self.seller_mint,
            &self.seller,
            &self.listing,
            MarketplaceError::Unauthorized,
        ) {
            Err(e) => {
                return Err(e);
            },
            Ok(_) => {},
        }
        ledger.transfer_asset(&self.seller_mint, &self.seller, &self.listing)
    }

    /// Whether the listing's address is the authority that the host derives
    /// for the asset on the marketplace under the bump given.
    pub open spec fn confirmed(self, bumps: ListBumps) -> bool {
        is_listing_authority(self.marketplace, self.seller_mint, bumps.listing, self.listing)
    }

    /// What the instruction does to the ledger `s`, where `confirmed` says
    /// whether the listing's address is the authority derived for it. The
    /// instruction is refused where the oracle does not confirm the asset, where
    /// the marketplace is not configured, where the address is not the
    /// derived authority, and where either step is refused. Else both steps
    /// have been taken.
    pub open spec fn outcome(self, s: LedgerState, price: u64, bumps: ListBumps, confirmed: bool) -> Outcome {
        match self.membership() {
            Err(e) => Err(e),
            Ok(_) => if !s.serves(self.marketplace) {
                Err(MarketplaceError::MarketplaceNotFound)
            } else if !confirmed {
                Err(MarketplaceError::InvalidAuthority)
            } else {
                match self.list_outcome(s, price, bumps) {
                    Err(e) => Err(e),
                    Ok(listed) => self.deposit_outcome(listed),
                }
            },
        }
    }

    /// Lists the asset: commits the listing, then moves the asset into its
    /// vault, both or neither. `derived` is the authority that the host derives
    /// for the listing.
    pub fn execute(
        &self,
        ledger: &mut Ledger,
        price: u64,
        bumps: &ListBumps,
        derived: Option<Address>,
    ) -> (r: Result<(), MarketplaceError>)
        requires
            old(ledger).wf(),
        ensures
            final(ledger).wf(),
            applied(
                old(ledger)@,
                final(ledger)@,
                r,
                self.outcome(old(ledger)@, price, *bumps, derived == Some(self.listing)),
            ),
    {
        match self.check_collection() {
            Err(e) => {
                return Err(e);
            },
            Ok(_) => {},
        }
        if !serves(ledger, &self.marketplace) {
            return Err(MarketplaceError::MarketplaceNotFound);
        }
        if !confirms(derived, &self.listing) {
            return Err(MarketplaceError::InvalidAuthority);
        }
        let before = ledger.duplicate();
        match self.list(ledger, price, bumps) {
            Err(e) => {
                return Err(e);
            },
            Ok(_) => {},
        }
        match self.deposit_nft(ledger) {
            Err(e) => {
                *ledger = before;
                Err(e)
            },
            Ok(_) => Ok(()),
        }
    }
}

} // verus!
