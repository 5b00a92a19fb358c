use crate::address::Address;
use crate::error::MarketplaceError;
use crate::state::listing::Listing;
use crate::state::marketplace::{name_len, Marketplace, MAX_FEE_BPS, MAX_NAME_LEN};
use crate::state::vault::{EscrowVault, TreasuryAccount};
use crate::table::{Duplicate, Table};
use vstd::prelude::*;

verus! {

/// A listing together with its vault and the funds that back the two records.
/// The two are created together and closed together.
#[derive(Clone, Copy, Debug)]
pub struct ListingAccount {
    /// The marketplace on which the asset is listed.
    pub marketplace: Address,
    pub listing: Listing,
    pub vault: EscrowVault,
    /// The backing funds that the maker reserved for the two records.
    pub reserve: u64,
}

impl Duplicate for ListingAccount {
    fn duplicate(&self) -> (r: ListingAccount) {
        *self
    }
}

/// A configured marketplace: its configuration and its treasury.
#[derive(Debug)]
pub struct MarketAccount {
    pub config: Marketplace,
    pub treasury: TreasuryAccount,
}

impl Duplicate for MarketAccount {
    fn duplicate(&self) -> (r: MarketAccount) {
        MarketAccount { config: self.config.duplicate(), treasury: self.treasury }
    }
}

/// The ledger as the contracts speak of it.
pub struct LedgerState {
    /// The backing funds reserved for each new listing.
    pub reserve: u64,
    /// The marketplaces, by address.
    pub markets: Map<Address, MarketAccount>,
    /// The listings, by asset.
    pub listings: Map<Address, ListingAccount>,
    /// Who holds each asset that was issued.
    pub holders: Map<Address, Address>,
    /// The balance of every identity; zero where nothing was ever paid in.
    pub funds: Map<Address, u64>,
}

/// The outcome of an instruction: the ledger that it leaves, or the reason it
/// was refused.
pub type Outcome = Result<LedgerState, MarketplaceError>;

/// What an instruction that ran on `before` and answered `r` has left in
/// `after`, given its `outcome`: the new ledger where it succeeded, the old one
/// and the error where it was refused.
pub open spec fn applied(
    before: LedgerState,
    after: LedgerState,
    r: Result<(), MarketplaceError>,
    outcome: Outcome,
) -> bool {
    match outcome {
        Ok(s) => r is Ok && after == s,
        Err(e) => r == Err::<(), MarketplaceError>(e) && after == before,
    }
}

impl LedgerState {
    /// The ledger on which nothing has happened yet.
    pub open spec fn empty(reserve: u64) -> LedgerState {
        LedgerState {
            reserve,
            markets: Map::empty(),
            listings: Map::empty(),
            holders: Map::empty(),
            funds: Map::total(|a: Address| 0u64),
        }
    }

    /// What holds of every ledger: each identity has a balance, each listing is
    /// stored under its own asset at a positive price, on a marketplace that is
    /// configured and with a vault for that asset, and every configuration is
    /// valid.
    pub open spec fn coherent(self) -> bool {
        &&& forall|a: Address| self.funds.contains_key(a)
        &&& forall|asset: Address| #[trigger]
            self.listings.contains_key(asset) ==> {
                &&& self.listings[asset].listing.maker_mint == asset
                &&& self.listings[asset].vault.held_asset_id == asset
                &&& self.listings[asset].listing.price > 0
                &&& self.markets.contains_key(self.listings[asset].marketplace)
            }
        &&& forall|m: Address| #[trigger]
            self.markets.contains_key(m) ==> self.markets[m].config.valid()
    }

    /// Whether a marketplace is configured under `address`.
    pub open spec fn serves(self, address: Address) -> bool {
        self.markets.contains_key(address)
    }

    /// Whether `asset` is listed on `marketplace`.
    pub open spec fn lists(self, marketplace: Address, asset: Address) -> bool {
        self.listings.contains_key(asset) && self.listings[asset].marketplace == marketplace
    }

    /// Whether the vault of the listing of `asset` holds the asset.
    pub open spec fn vault_holds(self, asset: Address) -> bool {
        &&& self.listings.contains_key(asset)
        &&& self.holders.contains_key(asset)
        &&& self.holders[asset] == self.listings[asset].vault.authority
    }

    /// Whether every listed asset is in the vault of its listing.
    pub open spec fn in_custody(self) -> bool {
        forall|asset: Address| #[trigger]
            self.listings.contains_key(asset) ==> self.vault_holds(asset)
    }

    /// `amount` is paid in to `who` from outside the ledger.
    pub open spec fn deposit(self, who: Address, amount: u64) -> Outcome {
        if self.funds[who] + amount > u64::MAX {
            Err(MarketplaceError::NumericalOverflow)
        } else {
            Ok(LedgerState { funds: self.funds.insert(who, (self.funds[who] + amount) as u64), ..self })
        }
    }

    /// A new asset comes into being in the hands of `holder`.
    pub open spec fn issue(self, asset: Address, holder: Address) -> Outcome {
        if self.holders.contains_key(asset) {
            Err(MarketplaceError::AssetExists)
        } else {
            Ok(LedgerState { holders: self.holders.insert(asset, holder), ..self })
        }
    }

    /// A marketplace is configured under `address`, with an empty treasury.
    /// A name over 32 bytes, a fee rate over 100% and an address that is taken
    /// are refused.
    pub open spec fn configure(self, address: Address, config: Marketplace) -> Outcome {
        if name_len(config.name@) > MAX_NAME_LEN {
            Err(MarketplaceError::NameTooLong)
        } else if config.fee > MAX_FEE_BPS {
            Err(MarketplaceError::FeeTooHigh)
        } else if self.markets.contains_key(address) {
            Err(MarketplaceError::MarketplaceExists)
        } else {
            Ok(
                LedgerState {
                    markets: self.markets.insert(
                        address,
                        MarketAccount { config, treasury: TreasuryAccount { balance: 0 } },
                    ),
                    ..self
                },
            )
        }
    }

    /// `from` pays `amount` to `to`.
    pub open spec fn pay(self, from: Address, to: Address, amount: u64) -> Outcome {
        if self.funds[from] < amount {
            Err(MarketplaceError::InsufficientFunds)
        } else if from == to {
            Ok(self)
        } else if self.funds[to] + amount > u64::MAX {
            Err(MarketplaceError::NumericalOverflow)
        } else {
            Ok(
                LedgerState {
                    funds: self.funds.insert(from, (self.funds[from] - amount) as u64).insert(
                        to,
                        (self.funds[to] + amount) as u64,
                    ),
                    ..self
                },
            )
        }
    }

    /// `from` pays `amount` into the treasury of `marketplace`.
    pub open spec fn collect(self, from: Address, marketplace: Address, amount: u64) -> Outcome {
        if !self.markets.contains_key(marketplace) {
            Err(MarketplaceError::MarketplaceNotFound)
        } else if self.funds[from] < amount {
            Err(MarketplaceError::InsufficientFunds)
        } else if self.markets[marketplace].treasury.balance + amount > u64::MAX {
            Err(MarketplaceError::NumericalOverflow)
        } else {
            Ok(
                LedgerState {
                    funds: self.funds.insert(from, (self.funds[from] - amount) as u64),
                    markets: self.markets.insert(
                        marketplace,
                        MarketAccount {
                            treasury: TreasuryAccount {
                                balance: (self.markets[marketplace].treasury.balance + amount) as u64,
                            },
                            ..self.markets[marketplace]
                        },
                    ),
                    ..self
                },
            )
        }
    }

    /// `authority`, which holds `asset`, hands it to `to`.
    pub open spec fn move_asset(self, asset: Address, authority: Address, to: Address) -> Outcome {
        if !self.holders.contains_key(asset) || self.holders[asset] != authority {
            Err(MarketplaceError::AssetNotHeld)
        } else {
            Ok(LedgerState { holders: self.holders.insert(asset, to), ..self })
        }
    }

    /// The records of `listing` on `marketplace` are created, with an empty
    /// vault under `authority`; the maker pays the reserve for them. A
    /// marketplace that is not configured, a price of zero and an asset that is
    /// listed already are refused.
    pub open spec fn open(self, marketplace: Address, listing: Listing, authority: Address) -> Outcome {
        if !self.markets.contains_key(marketplace) {
            Err(MarketplaceError::MarketplaceNotFound)
        } else if listing.price == 0 {
            Err(MarketplaceError::InvalidPrice)
        } else if self.listings.contains_key(listing.maker_mint) {
            Err(MarketplaceError::ListingExists)
        } else if self.funds[listing.maker] < self.reserve {
            Err(MarketplaceError::InsufficientFunds)
        } else {
            Ok(
                LedgerState {
                    listings: self.listings.insert(
                        listing.maker_mint,
                        ListingAccount {
                            marketplace,
                            listing,
                            vault: EscrowVault { held_asset_id: listing.maker_mint, authority },
                            reserve: self.reserve,
                        },
                    ),
                    funds: self.funds.insert(
                        listing.maker,
                        (self.funds[listing.maker] - self.reserve) as u64,
                    ),
                    ..self
                },
            )
        }
    }

    /// On the word of `authority`, the empty vault of the listing of `asset` is
    /// closed and the listing destroyed; the reserve of the two records goes to
    /// `destination`.
    pub open spec fn close(self, asset: Address, authority: Address, destination: Address) -> Outcome {
        if !self.listings.contains_key(asset) {
            Err(MarketplaceError::ListingNotFound)
        } else if self.listings[asset].vault.authority != authority {
            Err(MarketplaceError::InvalidAuthority)
        } else if self.vault_holds(asset) {
            Err(MarketplaceError::VaultNotEmpty)
        } else if self.funds[destination] + self.listings[asset].reserve > u64::MAX {
            Err(MarketplaceError::NumericalOverflow)
        } else {
            Ok(
                LedgerState {
                    listings: self.listings.remove(asset),
                    funds: self.funds.insert(
                        destination,
                        (self.funds[destination] + self.listings[asset].reserve) as u64,
                    ),
                    ..self
                },
            )
        }
    }
}

/// The balances that a table of the balances paid in stands for: zero for
/// every identity that the table does not hold.
pub open spec fn balances(paid: Map<Address, u64>) -> Map<Address, u64> {
    Map::total(
        |a: Address|
            if paid.contains_key(a) {
                paid[a]
            } else {
                0u64
            },
    )
}

/// The ledger: the marketplaces, their listings and vaults, and around them
/// the holders of assets and the balances of funds.
pub struct Ledger {
    reserve: u64,
    markets: Table<MarketAccount>,
    listings: Table<ListingAccount>,
    holders: Table<Address>,
    funds: Table<u64>,
}

impl Ledger {
    /// The ledger as the contracts speak of it.
    pub closed spec fn view(&self) -> LedgerState {
        LedgerState {
            reserve: self.reserve,
            markets: self.markets@,
            listings: self.listings@,
            holders: self.holders@,
            funds: balances(self.funds@),
        }
    }

    /// The invariant of the tables that the ledger is kept in.
    pub closed spec fn sound(&self) -> bool {
        &&& self.markets.wf()
        &&& self.listings.wf()
        &&& self.holders.wf()
        &&& self.funds.wf()
    }

    /// The ledger's invariant.
    pub open spec fn wf(&self) -> bool {
        &&& self.sound()
        &&& self@.coherent()
    }

    /// A ledger on which nothing has happened yet, and on which each listing
    /// will reserve `reserve` from its maker.
    pub fn new(reserve: u64) -> (r: Ledger)
        ensures
            r.wf(),
            r@ == LedgerState::empty(reserve),
    {
        let r = Ledger {
            reserve,
            markets: Table::new(),
            listings: Table::new(),
            holders: Table::new(),
            funds: Table::new(),
        };
        assert(r@.funds =~= LedgerState::empty(reserve).funds);
        r
    }

    /// A copy of the ledger, to return to when an instruction is refused
    /// halfway.
    pub fn duplicate(&self) -> (r: Ledger)
        requires
            self.wf(),
        ensures
            r.wf(),
            r@ == self@,
    {
        Ledger {
            reserve: self.reserve,
            markets: self.markets.duplicate(),
            listings: self.listings.duplicate(),
            holders: self.holders.duplicate(),
            funds: self.funds.duplicate(),
        }
    }

    /// The backing funds reserved for each new listing.
    pub fn reserve(&self) -> (r: u64)
        ensures
            r == self@.reserve,
    {
        self.reserve
    }

    /// The marketplace configured under `address`, if there is one.
    pub fn market(&self, address: &Address) -> (r: Option<&MarketAccount>)
        requires
            self.wf(),
        ensures
            match r {
                Some(m) => self@.markets.contains_key(*address) && *m == self@.markets[*address],
                None => !self@.markets.contains_key(*address),
            },
    {
        self.markets.get(address)
    }

    /// The balance of `who`.
    pub fn balance_of(&self, who: &Address) -> (r: u64)
        requires
            self.wf(),
        ensures
            r == self@.funds[*who],
    {
        match self.funds.get(who) {
            Some(b) => *b,
            None => 0,
        }
    }

    /// The holder of `asset`, if it was issued.
    pub fn holder_of(&self, asset: &Address) -> (r: Option<Address>)
        requires
            self.wf(),
        ensures
            r == (if self@.holders.contains_key(*asset) {
                Some(self@.holders[*asset])
            } else {
                None
            }),
    {
        match self.holders.get(asset) {
            Some(holder) => Some(*holder),
            None => None,
        }
    }

    /// The listing of `asset` with its vault, if the asset is listed.
    pub fn listing_of(&self, asset: &Address) -> (r: Option<ListingAccount>)
        requires
            self.wf(),
        ensures
            r == (if self@.listings.contains_key(*asset) {
                Some(self@.listings[*asset])
            } else {
                None
            }),
    {
        match self.listings.get(asset) {
            Some(account) => Some(*account),
            None => None,
        }
    }

    /// Pays `amount` in to `who` from outside the ledger.
    pub fn deposit(&mut self, who: &Address, amount: u64) -> (r: Result<(), MarketplaceError>)
        requires
            old(self).wf(),
        ensures
            final(self).wf(),
            applied(old(self)@, final(self)@, r, old(self)@.deposit(*who, amount)),
    {
        let balance = self.balance_of(who);
        if balance > u64::MAX - amount {
            return Err(MarketplaceError::NumericalOverflow);
        }
        self.funds.insert(*who, balance + amount);
        proof {
            assert(self@.funds =~= old(self)@.funds.insert(*who, (balance + amount) as u64));
        }
        Ok(())
    }

    /// Brings a new asset into being in the hands of `holder`.
    pub fn issue_asset(&mut self, asset: &Address, holder: &Address) -> (r: Result<
        (),
        MarketplaceError,
    >)
        requires
            old(self).wf(),
        ensures
            final(self).wf(),
            applied(old(self)@, final(self)@, r, old(self)@.issue(*asset, *holder)),
    {
        if self.holders.get(asset).is_some() {
            return Err(MarketplaceError::AssetExists);
        }
        self.holders.insert(*asset, *holder);
        Ok(())
    }

    /// Configures a marketplace under `address`, with an empty treasury.
    pub fn configure(&mut self, address: Address, config: Marketplace) -> (r: Result<
        (),
        MarketplaceError,
    >)
        requires
            old(self).wf(),
        ensures
            final(self).wf(),
            applied(old(self)@, final(self)@, r, old(self)@.configure(address, config)),
    {
        if config.name.as_str().as_bytes().len() > MAX_NAME_LEN {
            return Err(MarketplaceError::NameTooLong);
        }
        if config.fee > MAX_FEE_BPS {
            return Err(MarketplaceError::FeeTooHigh);
        }
        if self.markets.get(&address).is_some() {
            return Err(MarketplaceError::MarketplaceExists);
        }
        self.markets.insert(address, MarketAccount { config, treasury: TreasuryAccount { balance: 0 } });
        Ok(())
    }

    /// Pays `amount` from `from` to `to`.
    pub fn transfer_funds(&mut self, from: &Address, to: &Address, amount: u64) -> (r: Result<
        (),
        MarketplaceError,
    >)
        requires
            old(self).wf(),
        ensures
            final(self).wf(),
            applied(old(self)@, final(self)@, r, old(self)@.pay(*from, *to, amount)),
    {
        let available = self.balance_of(from);
        if available < amount {
            return Err(MarketplaceError::InsufficientFunds);
        }
        if from.same(to) {
            return Ok(());
        }
        let held = self.balance_of(to);
        if held > u64::MAX - amount {
            return Err(MarketplaceError::NumericalOverflow);
        }
        self.funds.insert(*from, available - amount);
        self.funds.insert(*to, held + amount);
        proof {
            assert(self@.funds =~= old(self)@.funds.insert(*from, (available - amount) as u64).insert(
                *to,
                (held + amount) as u64,
            ));
        }
        Ok(())
    }

    /// Pays `amount` from `from` into the treasury of `marketplace`.
    pub fn collect_fee(&mut self, from: &Address, marketplace: &Address, amount: u64) -> (r: Result<
        (),
        MarketplaceError,
    >)
        requires
            old(self).wf(),
        ensures
            final(self).wf(),
            applied(old(self)@, final(self)@, r, old(self)@.collect(*from, *marketplace, amount)),
    {
        let available = self.balance_of(from);
        let market = match self.markets.get(marketplace) {
            Some(m) => m.duplicate(),
            None => {
                return Err(MarketplaceError::MarketplaceNotFound);
            },
        };
        if available < amount {
            return Err(MarketplaceError::InsufficientFunds);
        }
        if market.treasury.balance > u64::MAX - amount {
            return Err(MarketplaceError::NumericalOverflow);
        }
        self.funds.insert(*from, available - amount);
        self.markets.insert(
            *marketplace,
            MarketAccount {
                config: market.config,
                treasury: TreasuryAccount { balance: market.treasury.balance + amount },
            },
        );
        proof {
            assert(self@.funds =~= old(self)@.funds.insert(*from, (available - amount) as u64));
        }
        Ok(())
    }

    /// Hands `asset` from `authority`, which holds it, to `to`.
    pub fn transfer_asset(&mut self, asset: &Address, authority: &Address, to: &Address) -> (r:
        Result<(), MarketplaceError>)
        requires
            old(self).wf(),
        ensures
            final(self).wf(),
            applied(old(self)@, final(self)@, r, old(self)@.move_asset(*asset, *authority, *to)),
    {
        match self.holder_of(asset) {
            Some(holder) => {
                if !holder.same(authority) {
                    return Err(MarketplaceError::AssetNotHeld);
                }
            },
            None => {
                return Err(MarketplaceError::AssetNotHeld);
            },
        }
        self.holders.insert(*asset, *to);
        Ok(())
    }

    /// Creates the records of `listing` on `marketplace`, with an empty vault
    /// under `authority`, and has the maker pay the reserve for them.
    pub fn open_listing(&mut self, marketplace: &Address, listing: Listing, authority: Address) -> (r:
        Result<(), MarketplaceError>)
        requires
            old(self).wf(),
        ensures
            final(self).wf(),
            applied(old(self)@, final(self)@, r, old(self)@.open(*marketplace, listing, authority)),
    {
        if self.markets.get(marketplace).is_none() {
            return Err(MarketplaceError::MarketplaceNotFound);
        }
        if listing.price == 0 {
            return Err(MarketplaceError::InvalidPrice);
        }
        if self.listings.get(&listing.maker_mint).is_some() {
            return Err(MarketplaceError::ListingExists);
        }
        let available = self.balance_of(&listing.maker);
        if available < self.reserve {
            return Err(MarketplaceError::InsufficientFunds);
        }
        self.listings.insert(
            listing.maker_mint,
            ListingAccount {
                marketplace: *marketplace,
                listing,
                vault: EscrowVault { held_asset_id: listing.maker_mint, authority },
                reserve: self.reserve,
            },
        );
        self.funds.insert(listing.maker, available - self.reserve);
        proof {
            assert(self@.funds =~= old(self)@.funds.insert(
                listing.maker,
                (available - self.reserve) as u64,
            ));
        }
        Ok(())
    }

    /// On the word of `authority`, closes the empty vault of the listing of
    /// `asset` and destroys the listing; the reserve goes to `destination`.
    pub fn close_listing(&mut self, asset: &Address, authority: &Address, destination: &Address) -> (r:
        Result<(), MarketplaceError>)
        requires
            old(self).wf(),
        ensures
            final(self).wf(),
            applied(
                old(self)@,
                final(self)@,
                r,
                old(self)@.close(*asset, *authority, *destination),
            ),
    {
        let account = match self.listing_of(asset) {
            Some(a) => a,
            None => {
                return Err(MarketplaceError::ListingNotFound);
            },
        };
        if !account.vault.authority.same(authority) {
            return Err(MarketplaceError::InvalidAuthority);
        }
        match self.holder_of(asset) {
            Some(holder) => {
                if holder.same(&account.vault.authority) {
                    return Err(MarketplaceError::VaultNotEmpty);
                }
            },
            None => {},
        }
        let held = self.balance_of(destination);
        if held > u64::MAX - account.reserve {
            return Err(MarketplaceError::NumericalOverflow);
        }
        self.listings.remove(asset);
        self.funds.insert(*destination, held + account.reserve);
        proof {
            assert(self@.funds =~= old(self)@.funds.insert(
                *destination,
                (held + account.reserve) as u64,
            ));
        }
        Ok(())
    }
}

} // verus!
