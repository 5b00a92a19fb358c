//! An escrow marketplace for unique assets, as a verified state machine.
//!
//! A seller lists an asset: the listing is recorded and the asset moves into
//! a vault that only the listing's derived authority controls. The seller may
//! delist, which returns the asset and closes both records; or a buyer may
//! purchase, which pays the seller and the marketplace's treasury, hands the
//! asset to the buyer and closes both records. Each instruction happens as a
//! whole or not at all.
//!
//! [`ledger::Ledger`] holds the state, and [`ledger::LedgerState`] is what the
//! contracts say of it. Each instruction has a `spec` function that gives its
//! outcome on a ledger, and the executable function is proved to bring that
//! outcome about. [`laws`] states what follows for sequences of instructions.

pub mod address;
pub mod authority;
pub mod error;
pub mod fees;
pub mod instructions;
pub mod laws;
pub mod ledger;
pub mod state;
pub mod table;
pub mod wire;

use crate::address::lemma_address_ext;
use crate::authority::listing_authority;
use crate::error::MarketplaceError;
use crate::instructions::delist::Delist;
use crate::instructions::initialize::{Initialize, InitializeBumps};
use crate::instructions::list::{List, ListBumps};
use crate::instructions::purchase::Purchase;
use crate::laws::{
    law_delisting_keeps_custody, law_listing_keeps_custody, law_purchase_keeps_custody,
};
use crate::ledger::{applied, Ledger};
use vstd::prelude::*;

verus! {

/// Configures a marketplace under a name of at most 32 bytes and a fee rate
/// of at most 10000 basis points.
pub fn init_marketplace(
    ledger: &mut Ledger,
    ctx: &Initialize,
    name: String,
    fee: u16,
    bumps: &InitializeBumps,
) -> (r: Result<(), MarketplaceError>)
    requires
        old(ledger).wf(),
    ensures
        final(ledger).wf(),
        applied(old(ledger)@, final(ledger)@, r, ctx.init_outcome(old(ledger)@, name, fee, *bumps)),
        old(ledger)@.in_custody() ==> final(ledger)@.in_custody(),
{
    ctx.init(ledger, name, fee, bumps)
}

/// Lists an asset at a positive `price`: records the listing, then moves the asset from
/// the seller into the listing's vault. Both happen or neither. The address
/// that the accounts give for the listing must be the authority that the host
/// derives for it under the bump given.
pub fn listing(ledger: &mut Ledger, ctx: &List, price: u64, bumps: &ListBumps) -> (r: Result<
    (),
    MarketplaceError,
>)
    requires
        old(ledger).wf(),
    ensures
        final(ledger).wf(),
        applied(
            old(ledger)@,
            final(ledger)@,
            r,
            ctx.outcome(old(ledger)@, price, *bumps, ctx.confirmed(*bumps)),
        ),
        old(ledger)@.in_custody() ==> final(ledger)@.in_custody(),
{
    let derived = listing_authority(&ctx.marketplace, &ctx.seller_mint, bumps.listing);
    proof {
        if let Some(a) = derived {
            if a@ == ctx.listing@ {
                lemma_address_ext(a, ctx.listing);
            }
        }
        if ledger@.in_custody() {
            law_listing_keeps_custody(ledger@, *ctx, price, *bumps, ctx.confirmed(*bumps));
        }
    }
    ctx.execute(ledger, price, bumps, derived)
}

/// Takes an asset off the market: returns it from the vault to the seller who
/// listed it, then closes the vault and destroys the listing, whose reserve
/// goes to the seller. Both happen or neither. The authority over the vault is
/// derived anew from the marketplace, the asset and the bump that the listing
/// records.
pub fn delisting(ledger: &mut Ledger, ctx: &Delist) -> (r: Result<(), MarketplaceError>)
    requires
        old(ledger).wf(),
    ensures
        final(ledger).wf(),
        applied(old(ledger)@, final(ledger)@, r, ctx.outcome(old(ledger)@, ctx.confirmed(old(ledger)@))),
        old(ledger)@.in_custody() ==> final(ledger)@.in_custody(),
{
    let derived = match ledger.listing_of(&ctx.mint) {
        Some(account) => listing_authority(&ctx.marketplace, &ctx.mint, account.listing.bump),
        None => None,
    };
    proof {
        if let Some(a) = derived {
            if a@ == ctx.listing@ {
                lemma_address_ext(a, ctx.listing);
            }
        }
        if ledger@.in_custody() {
            law_delisting_keeps_custody(ledger@, *ctx, ctx.confirmed(ledger@));
        }
    }
    ctx.execute(ledger, derived)
}

/// Settles the sale of a listed asset: the buyer pays the seller the price
/// less the fee and the treasury the fee, the asset moves from the vault to the
/// buyer, and the vault is closed and the listing destroyed, whose reserve goes
/// to the seller. All of it happens or none. The authority over the vault is
/// derived anew from the marketplace, the asset and the bump that the listing
/// records.
pub fn purchase(ledger: &mut Ledger, ctx: &Purchase) -> (r: Result<(), MarketplaceError>)
    requires
        old(ledger).wf(),
    ensures
        final(ledger).wf(),
        applied(old(ledger)@, final(ledger)@, r, ctx.outcome(old(ledger)@, ctx.confirmed(old(ledger)@))),
        old(ledger)@.in_custody() ==> final(ledger)@.in_custody(),
{
    let derived = match ledger.listing_of(&ctx.seller_mint) {
        Some(account) => listing_authority(&ctx.marketplace, &ctx.seller_mint, account.listing.bump),
        None => None,
    };
    proof {
        if let Some(a) = derived {
            if a@ == ctx.listing@ {
                lemma_address_ext(a, ctx.listing);
            }
        }
        if ledger@.in_custody() {
            law_purchase_keeps_custody(ledger@, *ctx, ctx.confirmed(ledger@));
        }
    }
    ctx.execute(ledger, derived)
}

} // verus!
