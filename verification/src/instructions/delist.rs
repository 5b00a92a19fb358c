use crate::address::Address;
use crate::authority::{confirms, is_listing_authority};
use crate::error::MarketplaceError;
use crate::instructions::resolve::{resolve, resolved};
use crate::ledger::{applied, Ledger, LedgerState, ListingAccount, Outcome};
use vstd::prelude::*;

verus! {

/// The accounts of the instruction that takes an asset off the market.
#[derive(Clone, Copy, Debug)]
pub struct Delist {
    /// Who asks for the asset back.
    pub seller: Address,
    /// The address of the listing: the authority over its vault.
    pub listing: Address,
    /// The asset listed.
    pub mint: Address,
    /// The marketplace on which it is listed.
    pub marketplace: Address,
}

impl Delist {
    /// The listing that the instruction names, as `s` holds it. A seller who
    /// did not make the listing is refused as unauthorized.
    pub open spec fn account(self, s: LedgerState) -> Result<ListingAccount, MarketplaceError> {
        resolved(
            s,
            self.marketplace,
            self.mint,
            self.seller,
            self.listing,
            MarketplaceError::Unauthorized,
        )
    }

    /// What the first step does to the ledger `s`: where the seller made the
    /// listing named and its vault holds the asset, the asset is the seller's
    /// again.
    pub open spec fn withdraw_outcome(self, s: LedgerState) -> Outcome {
        match self.account(s) {
            Err(e) => Err(e),
            Ok(_) => s.move_asset(self.mint, self.listing, self.seller),
        }
    }

    /// The first step of delisting: moves the asset out of the vault, back to
    /// the seller, on the authority of the listing.
    pub fn withdraw_nft(&self, ledger: &mut Ledger) -> (r: Result<(), MarketplaceError>)
        requires
            old(ledger).wf(),
        ensures
            final(ledger).wf(),
            applied(old(ledger)@, final(ledger)@, r, self.withdraw_outcome(old(ledger)@)),
    {
        match resolve(
            ledger,
            &self.marketplace,
            &self.mint,
            &self.seller,
            &self.listing,
            MarketplaceError::Unauthorized,
        ) {
            Err(e) => {
                return Err(e);
            },
            Ok(_) => {},
        }
        ledger.transfer_asset(&self.mint, &self.listing, &self.seller)
    }

    /// What the second step does to the ledger `s`: where the seller made the
    /// listing named and its vault is empty, listing and vault are gone and the
    /// seller has their reserve.
    pub open spec fn close_outcome(self, s: LedgerState) -> Outcome {
        match self.account(s) {
            Err(e) => Err(e),
            Ok(_) => s.close(self.mint, self.listing, self.seller),
        }
    }

    /// The second step of delisting: closes the emptied vault and destroys the
    /// listing, and returns the reserve of both to the seller.
    pub fn close_account(&self, ledger: &mut Ledger) -> (r: Result<(), MarketplaceError>)
        requires
            old(ledger).wf(),
        ensures
            final(ledger).wf(),
            applied(old(ledger)@, final(ledger)@, r, self.close_outcome(old(ledger)@)),
    {
        match resolve(
            ledger,
            &self.marketplace,
            &self.mint,
            &self.seller,
            &self.listing,
            MarketplaceError::Unauthorized,
        ) {
            Err(e) => {
                return Err(e);
            },
            Ok(_) => {},
        }
        ledger.close_listing(&self.mint, &self.listing, &self.seller)
    }

    /// Whether the listing's address is the authority that the host derives
    /// for the asset on the marketplace, under the bump that the listing of the
    /// asset records in `s`.
    pub open spec fn confirmed(self, s: LedgerState) -> bool {
        &&& s.listings.contains_key(self.mint)
        &&& is_listing_authority(
            self.marketplace,
            self.mint,
            s.listings[self.mint].listing.bump,
            self.listing,
        )
    }

    /// What the instruction does to the ledger `s`, where `confirmed` says
    /// whether the listing's address is the authority derived for it. The
    /// instruction is refused where the seller did not make the listing named,
    /// where the address is not the derived authority, and where either step is
    /// refused. Else both steps have been taken.
    pub open spec fn outcome(self, s: LedgerState, confirmed: bool) -> Outcome {
        match self.account(s) {
            Err(e) => Err(e),
            Ok(_) => if !confirmed {
                Err(MarketplaceError::InvalidAuthority)
            } else {
                match self.withdraw_outcome(s) {
                    Err(e) => Err(e),
                    Ok(withdrawn) => self.close_outcome(withdrawn),
                }
            },
        }
    }

    /// Delists the asset: returns it to the seller, then closes vault and
    /// listing, both or neither. `derived` is the authority that the host
    /// derives for the listing.
    pub fn execute(&self, ledger: &mut Ledger, derived: Option<Address>) -> (r: Result<
        (),
        MarketplaceError,
    >)
        requires
            old(ledger).wf(),
        ensures
            final(ledger).wf(),
            applied(
                old(ledger)@,
                final(ledger)@,
                r,
                self.outcome(old(ledger)@, derived == Some(self.listing)),
            ),
    {
        match resolve(
            ledger,
            &self.marketplace,
            &self.mint,
            &self.seller,
            &self.listing,
            MarketplaceError::Unauthorized,
        ) {
            Err(e) => {
                return Err(e);
            },
            Ok(_) => {},
        }
        if !confirms(derived, &self.listing) {
            return Err(MarketplaceError::InvalidAuthority);
        }
        let before = ledger.duplicate();
        match self.withdraw_nft(ledger) {
            Err(e) => {
                return Err(e);
            },
            Ok(_) => {},
        }
        match self.close_account(ledger) {
            Err(e) => {
                *ledger = before;
                Err(e)
            },
            Ok(_) => Ok(()),
        }
    }
}

} // verus!
