use crate::address::Address;
use crate::authority::{confirms, is_listing_authority};
use crate::error::MarketplaceError;
use crate::fees::{split, split_price};
use crate::instructions::resolve::{resolve, resolved};
use crate::ledger::{applied, Ledger, LedgerState, ListingAccount, Outcome};
use vstd::prelude::*;

verus! {

/// The accounts of the instruction that buys a listed asset.
#[derive(Clone, Copy, Debug)]
pub struct Purchase {
    /// Who pays, and who receives the asset.
    pub buyer: Address,
    /// The marketplace on which the asset is listed.
    pub marketplace: Address,
    /// Who listed the asset, and who is paid.
    pub seller: Address,
    /// The asset listed.
    pub seller_mint: Address,
    /// The address of the listing: the authority over its vault.
    pub listing: Address,
}

impl Purchase {
    /// The listing that the instruction names, as `s` holds it. A listing of
    /// the asset by another than the seller named is not the listing sought.
    pub open spec fn account(self, s: LedgerState) -> Result<ListingAccount, MarketplaceError> {
        resolved(
            s,
            self.marketplace,
            self.seller_mint,
            self.seller,
            self.listing,
            MarketplaceError::ListingNotFound,
        )
    }

    /// What the first step does to the ledger `s`. It is refused where the
    /// listing named is not there, where the stored fee rate is above the cap,
    /// where the fee cannot be computed in 64 bits, where the buyer's balance is
    /// below the price, and where a balance would overflow. Else the seller has
    /// received the price less the fee and the treasury the fee, both from the
    /// buyer.
    pub open spec fn transfer_amounts_outcome(self, s: LedgerState) -> Outcome {
        match self.account(s) {
            Err(e) => Err(e),
            Ok(account) => match split(account.listing.price, s.markets[self.marketplace].config.fee) {
                Err(e) => Err(e),
                Ok(shares) => if s.funds[self.buyer] < account.listing.price {
                    Err(MarketplaceError::InsufficientFunds)
                } else {
                    match s.pay(self.buyer, self.seller, shares.seller_amount) {
                        Err(e) => Err(e),
                        Ok(paid) => paid.collect(self.buyer, self.marketplace, shares.fee),
                    }
                },
            },
        }
    }

    /// The first step of a purchase: pays the seller and the treasury out of
    /// the buyer's funds, both or neither.
    pub fn transfer_amounts(&self, ledger: &mut Ledger) -> (r: Result<(), MarketplaceError>)
        requires
            old(ledger).wf(),
        ensures
            final(ledger).wf(),
            applied(old(ledger)@, final(ledger)@, r, self.transfer_amounts_outcome(old(ledger)@)),
    {
        let account = match resolve(
            ledger,
            &self.marketplace,
            &self.seller_mint,
            &self.seller,
            &self.listing,
            MarketplaceError::ListingNotFound,
        ) {
            Err(e) => {
                return Err(e);
            },
            Ok(a) => a,
        };
        let fee_bps = match ledger.market(&self.marketplace) {
            Some(m) => m.config.fee,
            None => {
                return Err(MarketplaceError::MarketplaceNotFound);
            },
        };
        let shares = match split_price(account.listing.price, fee_bps) {
            Err(e) => {
                return Err(e);
            },
            Ok(s) => s,
        };
        if ledger.balance_of(&self.buyer) < account.listing.price {
            return Err(MarketplaceError::InsufficientFunds);
        }
        let before = ledger.duplicate();
        match ledger.transfer_funds(&self.buyer, &self.seller, shares.seller_amount) {
            Err(e) => {
                return Err(e);
            },
            Ok(_) => {},
        }
        match ledger.collect_fee(&self.buyer, &self.marketplace, shares.fee) {
            Err(e) => {
                *ledger = before;
                Err(e)
            },
            Ok(_) => Ok(()),
        }
    }

    /// What the second step does to the ledger `s`: where the listing named is
    /// there and its vault holds the asset, the asset is the buyer's.
    pub open spec fn transfer_nft_outcome(self, s: LedgerState) -> Outcome {
        match self.account(s) {
            Err(e) => Err(e),
            Ok(_) => s.move_asset(self.seller_mint, self.listing, self.buyer),
        }
    }

    /// The second step of a purchase: moves the asset out of the vault to the
    /// buyer, on the authority of the listing.
    pub fn transfer_nft(&self, ledger: &mut Ledger) -> (r: Result<(), MarketplaceError>)
        requires
            old(ledger).wf(),
        ensures
            final(ledger).wf(),
            applied(old(ledger)@, final(ledger)@, r, self.transfer_nft_outcome(old(ledger)@)),
    {
        match resolve(
            ledger,
            &self.marketplace,
            &self.seller_mint,
            &self.seller,
            &self.listing,
            MarketplaceError::ListingNotFound,
        ) {
            Err(e) => {
                return Err(e);
            },
            Ok(_) => {},
        }
        ledger.transfer_asset(&self.seller_mint, &self.listing, &self.buyer)
    }

    /// What the third step does to the ledger `s`: where the listing named is
    /// there and its vault is empty, listing and vault are gone and the seller
    /// has their reserve.
    pub open spec fn close_vault_outcome(self, s: LedgerState) -> Outcome {
        match self.account(s) {
            Err(e) => Err(e),
            Ok(_) => s.close(self.seller_mint, self.listing, self.seller),
        }
    }

    /// The third step of a purchase: closes the emptied vault and destroys the
    /// listing, and returns the reserve of both to the seller.
    pub fn close_vault(&self, ledger: &mut Ledger) -> (r: Result<(), MarketplaceError>)
        requires
            old(ledger).wf(),
        ensures
            final(ledger).wf(),
            applied(old(ledger)@, final(ledger)@, r, self.close_vault_outcome(old(ledger)@)),
    {
        match resolve(
            ledger,
            &self.marketplace,
            &self.seller_mint,
            &self.seller,
            &self.listing,
            MarketplaceError::ListingNotFound,
        ) {
            Err(e) => {
                return Err(e);
            },
            Ok(_) => {},
        }
        ledger.close_listing(&self.seller_mint, &self.listing, &self.seller)
    }

    /// Whether the listing's address is the authority that the host derives
    /// for the asset on the marketplace, under the bump that the listing of the
    /// asset records in `s`.
    pub open spec fn confirmed(self, s: LedgerState) -> bool {
        &&& s.listings.contains_key(self.seller_mint)
        &&& is_listing_authority(
            self.marketplace,
            self.seller_mint,
            s.listings[self.seller_mint].listing.bump,
            self.listing,
        )
    }

    /// What the instruction does to the ledger `s`, where `confirmed` says
    /// whether the listing's address is the authority derived for it. The
    /// instruction is refused where the listing named is not there, where the
    /// address is not the derived authority, and where any step is refused.
    /// Else the three steps have been taken in their order: payment, asset,
    /// closing.
    pub open spec fn outcome(self, s: LedgerState, confirmed: bool) -> Outcome {
        match self.account(s) {
            Err(e) => Err(e),
            Ok(_) => if !confirmed {
                Err(MarketplaceError::InvalidAuthority)
            } else {
                match self.transfer_amounts_outcome(s) {
                    Err(e) => Err(e),
                    Ok(paid) => match self.transfer_nft_outcome(paid) {
                        Err(e) => Err(e),
                        Ok(delivered) => self.close_vault_outcome(delivered),
                    },
                }
            },
        }
    }

    /// Settles the sale: payment, then the asset, then the closing of vault
    /// and listing, all or none. `derived` is the authority that the host
    /// derives for the listing.
    pub fn execute(&self, ledger: &mut Ledger, derived: Option<Address>) -> (r: Result<
        (),
        MarketplaceError,
    >)
        requires
            old(ledger).wf(),
        ensures
            final(ledger).wf(),
            applied(
                old(ledger)@,
                final(ledger)@,
                r,
                self.outcome(old(ledger)@, derived == Some(self.listing)),
            ),
    {
        match resolve(
            ledger,
            &self.marketplace,
            &self.seller_mint,
            &self.seller,
            &self.listing,
            MarketplaceError::ListingNotFound,
        ) {
            Err(e) => {
                return Err(e);
            },
            Ok(_) => {},
        }
        if !confirms(derived, &self.listing) {
            return Err(MarketplaceError::InvalidAuthority);
        }
        let before = ledger.duplicate();
        match self.transfer_amounts(ledger) {
            Err(e) => {
                return Err(e);
            },
            Ok(_) => {},
        }
        match self.transfer_nft(ledger) {
            Err(e) => {
                *ledger = before;
                return Err(e);
            },
            Ok(_) => {},
        }
        match self.close_vault(ledger) {
            Err(e) => {
                *ledger = before;
                Err(e)
            },
            Ok(_) => Ok(()),
        }
    }
}

} // verus!
