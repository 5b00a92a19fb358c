use crate::address::Address;
use crate::error::MarketplaceError;
use crate::fees::{fee_on, lemma_fee_bounds, split, FEE_CAP_BPS};
use crate::instructions::delist::Delist;
use crate::instructions::list::{List, ListBumps};
use crate::instructions::purchase::Purchase;
use crate::ledger::{applied, LedgerState, ListingAccount, MarketAccount};
use crate::state::listing::Listing;
use crate::state::vault::{EscrowVault, TreasuryAccount};
use vstd::prelude::*;

verus! {

/// At a rate within the cap, a price whose product with the rate fits in 64
/// bits is divided without loss: fee and seller's share add up to the price,
/// and the fee is the exact quotient of price times rate by 10000, rounded
/// down. A price whose product does not fit is refused as an overflow.
pub proof fn law_split_is_exact(price: u64, fee_bps: u16)
    requires
        fee_bps <= FEE_CAP_BPS,
    ensures
        match split(price, fee_bps) {
            Ok(shares) => {
                &&& shares.fee + shares.seller_amount == price
                &&& shares.fee == (price * fee_bps) / 10000
                &&& shares.fee * 10000 <= price * fee_bps < (shares.fee + 1) * 10000
            },
            Err(e) => e == MarketplaceError::MathOverflow && price * fee_bps > u64::MAX,
        },
{
    lemma_fee_bounds(price, fee_bps);
    assert(fee_on(price, fee_bps) == (price * fee_bps) / 10000);
}

/// The accounts with which the seller of `ctx` takes the same asset off the
/// same marketplace again.
pub open spec fn delisting_of(ctx: List) -> Delist {
    Delist {
        seller: ctx.seller,
        listing: ctx.listing,
        mint: ctx.seller_mint,
        marketplace: ctx.marketplace,
    }
}

/// Where a listing succeeds, its maker can delist at once, and the ledger is
/// then as it was before the listing: the asset is the maker's again, no
/// listing and no vault are left, and the reserve is back.
pub proof fn law_list_then_delist_restores(s: LedgerState, ctx: List, price: u64, bumps: ListBumps)
    requires
        s.coherent(),
        ctx.outcome(s, price, bumps, ctx.confirmed(bumps)) is Ok,
    ensures
        ({
            let listed = ctx.outcome(s, price, bumps, ctx.confirmed(bumps))->Ok_0;
            let back = delisting_of(ctx);
            &&& back.outcome(listed, back.confirmed(listed)) == Ok::<LedgerState, MarketplaceError>(s)
            &&& s.holders[ctx.seller_mint] == ctx.seller
            &&& !s.listings.contains_key(ctx.seller_mint)
        }),
{
    let listed = ctx.outcome(s, price, bumps, ctx.confirmed(bumps))->Ok_0;
    let back = delisting_of(ctx);
    let recorded = ctx.list_outcome(s, price, bumps)->Ok_0;
    assert(recorded.listings.contains_key(ctx.seller_mint));
    assert(listed.listings.contains_key(ctx.seller_mint));
    assert(back.confirmed(listed));
    let withdrawn = back.withdraw_outcome(listed)->Ok_0;
    let closed = back.close_outcome(withdrawn)->Ok_0;
    assert(closed.funds =~= s.funds);
    assert(closed.holders =~= s.holders);
    assert(closed.listings =~= s.listings);
}

/// A sale consumes its listing: after a purchase has succeeded, every further
/// purchase and every delisting of the same asset on the same marketplace is
/// refused, because no listing is found.
pub proof fn law_purchase_consumes_listing(
    s: LedgerState,
    ctx: Purchase,
    again: Purchase,
    back: Delist,
    confirmed: bool,
)
    requires
        ctx.outcome(s, ctx.confirmed(s)) is Ok,
        again.seller_mint == ctx.seller_mint,
        again.marketplace == ctx.marketplace,
        back.mint == ctx.seller_mint,
        back.marketplace == ctx.marketplace,
    ensures
        ({
            let sold = ctx.outcome(s, ctx.confirmed(s))->Ok_0;
            &&& !sold.listings.contains_key(ctx.seller_mint)
            &&& again.outcome(sold, confirmed) == Err::<LedgerState, MarketplaceError>(
                MarketplaceError::ListingNotFound,
            )
            &&& back.outcome(sold, confirmed) == Err::<LedgerState, MarketplaceError>(
                MarketplaceError::ListingNotFound,
            )
        }),
{
}

/// A delisting consumes its listing: after it has succeeded, every further
/// delisting and every purchase of the same asset on the same marketplace is
/// refused, because no listing is found.
pub proof fn law_delist_consumes_listing(
    s: LedgerState,
    ctx: Delist,
    again: Delist,
    late: Purchase,
    confirmed: bool,
)
    requires
        ctx.outcome(s, ctx.confirmed(s)) is Ok,
        again.mint == ctx.mint,
        again.marketplace == ctx.marketplace,
        late.seller_mint == ctx.mint,
        late.marketplace == ctx.marketplace,
    ensures
        ({
            let delisted = ctx.outcome(s, ctx.confirmed(s))->Ok_0;
            &&& !delisted.listings.contains_key(ctx.mint)
            &&& again.outcome(delisted, confirmed) == Err::<LedgerState, MarketplaceError>(
                MarketplaceError::ListingNotFound,
            )
            &&& late.outcome(delisted, confirmed) == Err::<LedgerState, MarketplaceError>(
                MarketplaceError::ListingNotFound,
            )
        }),
{
}

/// Whoever did not make a listing cannot delist it: the attempt is refused as
/// unauthorized, whatever address it offers for the listing, and the ledger
/// stays as it was.
pub proof fn law_delist_by_stranger_is_unauthorized(
    s: LedgerState,
    ctx: Delist,
    confirmed: bool,
    after: LedgerState,
    r: Result<(), MarketplaceError>,
)
    requires
        s.serves(ctx.marketplace),
        s.lists(ctx.marketplace, ctx.mint),
        s.listings[ctx.mint].listing.maker != ctx.seller,
        applied(s, after, r, ctx.outcome(s, confirmed)),
    ensures
        ctx.outcome(s, confirmed) == Err::<LedgerState, MarketplaceError>(
            MarketplaceError::Unauthorized,
        ),
        r == Err::<(), MarketplaceError>(MarketplaceError::Unauthorized),
        after == s,
{
}

/// An asset that names the collection it is offered under, but whose
/// membership the collection has not verified, cannot be listed: the attempt
/// is refused as unverified on every ledger, and creates no listing and no
/// vault.
pub proof fn law_unverified_collection_is_refused(
    s: LedgerState,
    ctx: List,
    price: u64,
    bumps: ListBumps,
    confirmed: bool,
    after: LedgerState,
    r: Result<(), MarketplaceError>,
)
    requires
        ctx.metadata.mint == ctx.seller_mint,
        ctx.metadata.collection matches Some(c) && c.key == ctx.collection_mint && !c.verified,
        applied(s, after, r, ctx.outcome(s, price, bumps, confirmed)),
    ensures
        ctx.outcome(s, price, bumps, confirmed) == Err::<LedgerState, MarketplaceError>(
            MarketplaceError::UnverifiedCollection,
        ),
        ctx.list_outcome(s, price, bumps) == Err::<LedgerState, MarketplaceError>(
            MarketplaceError::UnverifiedCollection,
        ),
        r == Err::<(), MarketplaceError>(MarketplaceError::UnverifiedCollection),
        after == s,
{
}

/// A stored fee rate above the cap of 50% stops every purchase of a listing
/// that is there, though the configuration accepted the rate: nothing is
/// paid and nothing moves.
pub proof fn law_fee_above_cap_is_refused(
    s: LedgerState,
    ctx: Purchase,
    after: LedgerState,
    r: Result<(), MarketplaceError>,
)
    requires
        ctx.account(s) is Ok,
        ctx.confirmed(s),
        s.markets[ctx.marketplace].config.fee > FEE_CAP_BPS,
        applied(s, after, r, ctx.outcome(s, ctx.confirmed(s))),
    ensures
        ctx.transfer_amounts_outcome(s) == Err::<LedgerState, MarketplaceError>(
            MarketplaceError::FeeTooHigh,
        ),
        ctx.outcome(s, ctx.confirmed(s)) == Err::<LedgerState, MarketplaceError>(
            MarketplaceError::FeeTooHigh,
        ),
        r == Err::<(), MarketplaceError>(MarketplaceError::FeeTooHigh),
        after == s,
{
}

/// What a successful listing leaves: the listing is recorded under its asset
/// with the seller as its maker and the price asked, its vault is under the
/// listing's address and holds the asset, and the seller has paid the reserve.
/// Nothing else has changed.
pub proof fn law_listing_records_and_escrows(
    s: LedgerState,
    ctx: List,
    price: u64,
    bumps: ListBumps,
    confirmed: bool,
)
    requires
        s.coherent(),
        ctx.outcome(s, price, bumps, confirmed) is Ok,
    ensures
        ({
            let listed = ctx.outcome(s, price, bumps, confirmed)->Ok_0;
            &&& confirmed
            &&& s.serves(ctx.marketplace)
            &&& !s.listings.contains_key(ctx.seller_mint)
            &&& s.holders.contains_key(ctx.seller_mint) && s.holders[ctx.seller_mint] == ctx.seller
            &&& s.funds[ctx.seller] >= s.reserve
            &&& listed.listings == s.listings.insert(
                ctx.seller_mint,
                ListingAccount {
                    marketplace: ctx.marketplace,
                    listing: Listing {
                        maker: ctx.seller,
                        maker_mint: ctx.seller_mint,
                        price,
                        bump: bumps.listing,
                    },
                    vault: EscrowVault { held_asset_id: ctx.seller_mint, authority: ctx.listing },
                    reserve: s.reserve,
                },
            )
            &&& listed.holders == s.holders.insert(ctx.seller_mint, ctx.listing)
            &&& listed.funds == s.funds.insert(ctx.seller, (s.funds[ctx.seller] - s.reserve) as u64)
            &&& listed.markets == s.markets
            &&& listed.reserve == s.reserve
            &&& listed.vault_holds(ctx.seller_mint)
        }),
{
}

/// What a successful delisting leaves: the asset is the seller's, listing and
/// vault are gone, and the seller has their reserve. Nothing else has changed.
pub proof fn law_delisting_returns_asset(s: LedgerState, ctx: Delist, confirmed: bool)
    requires
        s.coherent(),
        ctx.outcome(s, confirmed) is Ok,
    ensures
        ({
            let delisted = ctx.outcome(s, confirmed)->Ok_0;
            &&& confirmed
            &&& s.lists(ctx.marketplace, ctx.mint)
            &&& s.vault_holds(ctx.mint)
            &&& s.listings[ctx.mint].listing.maker == ctx.seller
            &&& delisted.listings == s.listings.remove(ctx.mint)
            &&& delisted.holders == s.holders.insert(ctx.mint, ctx.seller)
            &&& delisted.funds == s.funds.insert(
                ctx.seller,
                (s.funds[ctx.seller] + s.listings[ctx.mint].reserve) as u64,
            )
            &&& delisted.markets == s.markets
            &&& delisted.reserve == s.reserve
        }),
{
}

/// What a successful purchase leaves, where buyer and seller are two: the
/// buyer has paid the price and holds the asset, the seller has received the
/// price less the fee and the reserve of the listing, the treasury has received
/// the fee, and listing and vault are gone. Nothing else has changed, and
/// nothing was lost: what the buyer paid is what seller and treasury gained.
pub proof fn law_purchase_settles(s: LedgerState, ctx: Purchase, confirmed: bool)
    requires
        s.coherent(),
        ctx.buyer != ctx.seller,
        ctx.outcome(s, confirmed) is Ok,
    ensures
        ({
            let sold = ctx.outcome(s, confirmed)->Ok_0;
            let account = s.listings[ctx.seller_mint];
            let market = s.markets[ctx.marketplace];
            let price = account.listing.price;
            let fee = (price * market.config.fee) / 10000;
            &&& confirmed
            &&& s.serves(ctx.marketplace)
            &&& s.lists(ctx.marketplace, ctx.seller_mint)
            &&& s.vault_holds(ctx.seller_mint)
            &&& account.listing.maker == ctx.seller
            &&& market.config.fee <= FEE_CAP_BPS
            &&& s.funds[ctx.buyer] >= price
            &&& 0 <= fee <= price
            &&& sold.listings == s.listings.remove(ctx.seller_mint)
            &&& sold.holders == s.holders.insert(ctx.seller_mint, ctx.buyer)
            &&& sold.funds == s.funds.insert(ctx.buyer, (s.funds[ctx.buyer] - price) as u64).insert(
                ctx.seller,
                (s.funds[ctx.seller] + (price - fee) + account.reserve) as u64,
            )
            &&& s.funds[ctx.seller] + (price - fee) + account.reserve <= u64::MAX
            &&& sold.markets == s.markets.insert(
                ctx.marketplace,
                MarketAccount {
                    treasury: TreasuryAccount { balance: (market.treasury.balance + fee) as u64 },
                    ..market
                },
            )
            &&& market.treasury.balance + fee <= u64::MAX
            &&& sold.reserve == s.reserve
            &&& s.funds[ctx.buyer] - sold.funds[ctx.buyer] == (sold.funds[ctx.seller]
                - s.funds[ctx.seller] - account.reserve) + (sold.markets[ctx.marketplace].treasury.balance
                - market.treasury.balance)
        }),
{
    let account = s.listings[ctx.seller_mint];
    let market = s.markets[ctx.marketplace];
    let price = account.listing.price;
    lemma_fee_bounds(price, market.config.fee);
    let shares = split(price, market.config.fee)->Ok_0;
    let paid = s.pay(ctx.buyer, ctx.seller, shares.seller_amount)->Ok_0;
    let collected = paid.collect(ctx.buyer, ctx.marketplace, shares.fee)->Ok_0;
    let delivered = ctx.transfer_nft_outcome(collected)->Ok_0;
    let sold = ctx.outcome(s, confirmed)->Ok_0;
    assert(sold.funds =~= s.funds.insert(ctx.buyer, (s.funds[ctx.buyer] - price) as u64).insert(
        ctx.seller,
        (s.funds[ctx.seller] + (price - shares.fee) + account.reserve) as u64,
    ));
}

/// Every listed asset stays in the vault of its listing: a listing keeps it
/// so on a ledger where it is so, and keeps the ledger coherent.
pub proof fn law_listing_keeps_custody(
    s: LedgerState,
    ctx: List,
    price: u64,
    bumps: ListBumps,
    confirmed: bool,
)
    requires
        s.coherent(),
        s.in_custody(),
    ensures
        ctx.outcome(s, price, bumps, confirmed) matches Ok(listed) ==> listed.coherent()
            && listed.in_custody(),
{
    if let Ok(listed) = ctx.outcome(s, price, bumps, confirmed) {
        law_listing_records_and_escrows(s, ctx, price, bumps, confirmed);
        assert forall|asset: Address| #[trigger]
            listed.listings.contains_key(asset) implies listed.vault_holds(asset) by {
            if asset != ctx.seller_mint {
                assert(s.listings.contains_key(asset));
                assert(s.vault_holds(asset));
            }
        }
    }
}

/// Every listed asset stays in the vault of its listing: a delisting keeps it
/// so on a ledger where it is so, and keeps the ledger coherent.
pub proof fn law_delisting_keeps_custody(s: LedgerState, ctx: Delist, confirmed: bool)
    requires
        s.coherent(),
        s.in_custody(),
    ensures
        ctx.outcome(s, confirmed) matches Ok(delisted) ==> delisted.coherent()
            && delisted.in_custody(),
{
    if let Ok(delisted) = ctx.outcome(s, confirmed) {
        law_delisting_returns_asset(s, ctx, confirmed);
        assert forall|asset: Address| #[trigger]
            delisted.listings.contains_key(asset) implies delisted.vault_holds(asset) by {
            assert(s.listings.contains_key(asset));
            assert(s.vault_holds(asset));
        }
    }
}

/// Every listed asset stays in the vault of its listing: a purchase keeps it
/// so on a ledger where it is so, and keeps the ledger coherent.
pub proof fn law_purchase_keeps_custody(s: LedgerState, ctx: Purchase, confirmed: bool)
    requires
        s.coherent(),
        s.in_custody(),
    ensures
        ctx.outcome(s, confirmed) matches Ok(sold) ==> sold.coherent() && sold.in_custody(),
{
    if let Ok(sold) = ctx.outcome(s, confirmed) {
        let paid = ctx.transfer_amounts_outcome(s)->Ok_0;
        let delivered = ctx.transfer_nft_outcome(paid)->Ok_0;
        assert(sold.listings =~= s.listings.remove(ctx.seller_mint));
        assert(sold.holders =~= s.holders.insert(ctx.seller_mint, ctx.buyer));
        assert forall|asset: Address| #[trigger]
            sold.listings.contains_key(asset) implies sold.vault_holds(asset) by {
            assert(s.listings.contains_key(asset));
            assert(s.vault_holds(asset));
        }
        assert(sold.coherent());
    }
}

/// A configuration is written once: no listing, delisting or purchase changes
/// the configuration of any marketplace, and none closes one or opens one.
/// Only a purchase moves a treasury's balance, and only that of its own
/// marketplace, and only upwards.
pub proof fn law_configuration_is_written_once(
    s: LedgerState,
    list: List,
    price: u64,
    bumps: ListBumps,
    delist: Delist,
    purchase: Purchase,
    confirmed: bool,
    marketplace: Address,
)
    ensures
        list.outcome(s, price, bumps, confirmed) matches Ok(listed) ==> listed.markets == s.markets,
        delist.outcome(s, confirmed) matches Ok(delisted) ==> delisted.markets == s.markets,
        purchase.outcome(s, confirmed) matches Ok(sold) ==> {
            &&& sold.markets.contains_key(marketplace) == s.markets.contains_key(marketplace)
            &&& s.markets.contains_key(marketplace) ==> {
                &&& sold.markets[marketplace].config == s.markets[marketplace].config
                &&& sold.markets[marketplace].treasury.balance
                    >= s.markets[marketplace].treasury.balance
                &&& marketplace != purchase.marketplace ==> sold.markets[marketplace]
                    == s.markets[marketplace]
            }
        },
{
}

/// A listing is never rewritten: after a listing, a delisting or a purchase,
/// every listing that the ledger held before and still holds is as it was, and
/// at most the listing of the asset named has come or gone.
pub proof fn law_listings_are_never_rewritten(
    s: LedgerState,
    list: List,
    price: u64,
    bumps: ListBumps,
    delist: Delist,
    purchase: Purchase,
    confirmed: bool,
    asset: Address,
)
    ensures
        list.outcome(s, price, bumps, confirmed) matches Ok(listed) ==> {
            &&& s.listings.contains_key(asset) ==> listed.listings.contains_key(asset)
                && listed.listings[asset] == s.listings[asset]
            &&& listed.listings.contains_key(asset) ==> s.listings.contains_key(asset) || asset
                == list.seller_mint
        },
        delist.outcome(s, confirmed) matches Ok(delisted) ==> {
            &&& delisted.listings.contains_key(asset) ==> s.listings.contains_key(asset)
                && delisted.listings[asset] == s.listings[asset]
            &&& s.listings.contains_key(asset) ==> delisted.listings.contains_key(asset) || asset
                == delist.mint
        },
        purchase.outcome(s, confirmed) matches Ok(sold) ==> {
            &&& sold.listings.contains_key(asset) ==> s.listings.contains_key(asset)
                && sold.listings[asset] == s.listings[asset]
            &&& s.listings.contains_key(asset) ==> sold.listings.contains_key(asset) || asset
                == purchase.seller_mint
        },
{
}

} // verus!
