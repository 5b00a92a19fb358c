use marketplace::address::Address;
use marketplace::error::MarketplaceError;
use marketplace::ledger::Ledger;
use marketplace::state::listing::Listing;
use marketplace::state::marketplace::Marketplace;
use marketplace::table::Table;

fn address(n: u8) -> Address {
    Address::new([n; 32])
}

fn config(fee: u16) -> Marketplace {
    Marketplace {
        admin: address(1),
        fee,
        bump: 255,
        treasury_bump: 254,
        rewards_bump: 253,
        name: String::from("m"),
    }
}

#[test]
fn table_keeps_one_value_per_key() {
    let mut table: Table<u64> = Table::new();
    assert_eq!(table.get(&address(1)), None);
    table.insert(address(1), 10);
    table.insert(address(2), 20);
    table.insert(address(1), 11);
    assert_eq!(table.get(&address(1)), Some(&11));
    assert_eq!(table.get(&address(2)), Some(&20));
    assert_eq!(table.get(&address(3)), None);
    let copy = table.duplicate();
    table.remove(&address(1));
    assert_eq!(table.get(&address(1)), None);
    assert_eq!(table.get(&address(2)), Some(&20));
    table.remove(&address(1));
    table.remove(&address(3));
    assert_eq!(table.get(&address(2)), Some(&20));
    assert_eq!(copy.get(&address(1)), Some(&11));
    assert_eq!(copy.get(&address(2)), Some(&20));
}

#[test]
fn a_new_ledger_is_empty() {
    let ledger = Ledger::new(7);
    assert_eq!(ledger.reserve(), 7);
    assert!(ledger.market(&address(1)).is_none());
    assert_eq!(ledger.balance_of(&address(1)), 0);
    assert!(ledger.holder_of(&address(1)).is_none());
    assert!(ledger.listing_of(&address(1)).is_none());
}

#[test]
fn deposit_adds_up_and_stops_at_the_top() {
    let mut ledger = Ledger::new(0);
    assert_eq!(ledger.deposit(&address(1), 5), Ok(()));
    assert_eq!(ledger.deposit(&address(1), 6), Ok(()));
    assert_eq!(ledger.balance_of(&address(1)), 11);
    assert_eq!(ledger.deposit(&address(1), u64::MAX - 10), Err(MarketplaceError::NumericalOverflow));
    assert_eq!(ledger.balance_of(&address(1)), 11);
    assert_eq!(ledger.deposit(&address(1), u64::MAX - 11), Ok(()));
    assert_eq!(ledger.balance_of(&address(1)), u64::MAX);
    assert_eq!(ledger.balance_of(&address(2)), 0);
}

#[test]
fn an_asset_is_issued_once() {
    let mut ledger = Ledger::new(0);
    assert_eq!(ledger.issue_asset(&address(5), &address(1)), Ok(()));
    assert_eq!(ledger.issue_asset(&address(5), &address(2)), Err(MarketplaceError::AssetExists));
    assert_eq!(ledger.holder_of(&address(5)).unwrap().bytes, address(1).bytes);
}

#[test]
fn funds_move_between_identities() {
    let mut ledger = Ledger::new(0);
    assert_eq!(ledger.deposit(&address(1), 100), Ok(()));
    assert_eq!(ledger.transfer_funds(&address(1), &address(2), 30), Ok(()));
    assert_eq!(ledger.balance_of(&address(1)), 70);
    assert_eq!(ledger.balance_of(&address(2)), 30);
    assert_eq!(
        ledger.transfer_funds(&address(1), &address(2), 71),
        Err(MarketplaceError::InsufficientFunds)
    );
    assert_eq!(ledger.transfer_funds(&address(1), &address(1), 70), Ok(()));
    assert_eq!(ledger.balance_of(&address(1)), 70);
    assert_eq!(
        ledger.transfer_funds(&address(1), &address(1), 71),
        Err(MarketplaceError::InsufficientFunds)
    );
    assert_eq!(ledger.deposit(&address(3), u64::MAX), Ok(()));
    assert_eq!(
        ledger.transfer_funds(&address(1), &address(3), 1),
        Err(MarketplaceError::NumericalOverflow)
    );
    assert_eq!(ledger.transfer_funds(&address(1), &address(3), 0), Ok(()));
    assert_eq!(ledger.balance_of(&address(1)), 70);
    assert_eq!(ledger.balance_of(&address(3)), u64::MAX);
}

#[test]
fn fees_are_collected_into_the_treasury() {
    let mut ledger = Ledger::new(0);
    assert_eq!(ledger.deposit(&address(1), 100), Ok(()));
    let m9 = address(9);
    assert_eq!(ledger.collect_fee(&address(1), &m9, 10), Err(MarketplaceError::MarketplaceNotFound));
    assert_eq!(ledger.configure(m9, config(250)), Ok(()));
    assert_eq!(ledger.configure(m9, config(1)), Err(MarketplaceError::MarketplaceExists));
    assert_eq!(ledger.configure(address(8), config(1)), Ok(()));
    assert_eq!(ledger.collect_fee(&address(1), &m9, 10), Ok(()));
    assert_eq!(ledger.collect_fee(&address(1), &m9, 91), Err(MarketplaceError::InsufficientFunds));
    assert_eq!(
        ledger.collect_fee(&address(1), &address(7), 1),
        Err(MarketplaceError::MarketplaceNotFound)
    );
    assert_eq!(ledger.balance_of(&address(1)), 90);
    let m = ledger.market(&m9).unwrap();
    assert_eq!(m.treasury.balance, 10);
    assert_eq!(m.config.fee, 250);
    assert_eq!(ledger.market(&address(8)).unwrap().treasury.balance, 0);
    assert_eq!(ledger.market(&address(8)).unwrap().config.fee, 1);
    assert_eq!(ledger.deposit(&address(2), u64::MAX), Ok(()));
    assert_eq!(
        ledger.collect_fee(&address(2), &m9, u64::MAX - 9),
        Err(MarketplaceError::NumericalOverflow)
    );
    assert_eq!(ledger.collect_fee(&address(2), &m9, u64::MAX - 10), Ok(()));
    assert_eq!(ledger.market(&m9).unwrap().treasury.balance, u64::MAX);
    assert_eq!(ledger.balance_of(&address(2)), 10);
    assert_eq!(ledger.collect_fee(&address(2), &address(8), 10), Ok(()));
    assert_eq!(ledger.market(&address(8)).unwrap().treasury.balance, 10);
}

#[test]
fn an_asset_moves_on_the_word_of_its_holder() {
    let mut ledger = Ledger::new(0);
    assert_eq!(
        ledger.transfer_asset(&address(5), &address(1), &address(2)),
        Err(MarketplaceError::AssetNotHeld)
    );
    assert_eq!(ledger.issue_asset(&address(5), &address(1)), Ok(()));
    assert_eq!(
        ledger.transfer_asset(&address(5), &address(2), &address(2)),
        Err(MarketplaceError::AssetNotHeld)
    );
    assert_eq!(ledger.transfer_asset(&address(5), &address(1), &address(2)), Ok(()));
    assert_eq!(ledger.holder_of(&address(5)).unwrap().bytes, address(2).bytes);
}

#[test]
fn a_listing_is_opened_and_closed_with_its_vault() {
    let mut ledger = Ledger::new(40);
    let listing = Listing { maker: address(1), maker_mint: address(5), price: 9, bump: 250 };
    let m9 = address(9);
    assert_eq!(ledger.deposit(&address(1), 39), Ok(()));
    assert_eq!(
        ledger.open_listing(&m9, listing, address(7)),
        Err(MarketplaceError::MarketplaceNotFound)
    );
    assert_eq!(ledger.configure(m9, config(250)), Ok(()));
    assert_eq!(ledger.open_listing(&m9, listing, address(7)), Err(MarketplaceError::InsufficientFunds));
    assert_eq!(ledger.deposit(&address(1), 61), Ok(()));
    assert_eq!(ledger.open_listing(&m9, listing, address(7)), Ok(()));
    assert_eq!(ledger.open_listing(&m9, listing, address(7)), Err(MarketplaceError::ListingExists));
    assert_eq!(ledger.balance_of(&address(1)), 60);
    let account = ledger.listing_of(&address(5)).unwrap();
    assert_eq!(account.marketplace.bytes, m9.bytes);
    assert_eq!(account.reserve, 40);
    assert_eq!(account.vault.authority.bytes, address(7).bytes);
    assert_eq!(account.vault.held_asset_id.bytes, address(5).bytes);
    assert_eq!(
        ledger.close_listing(&address(6), &address(7), &address(2)),
        Err(MarketplaceError::ListingNotFound)
    );
    assert_eq!(
        ledger.close_listing(&address(5), &address(8), &address(2)),
        Err(MarketplaceError::InvalidAuthority)
    );
    assert_eq!(ledger.issue_asset(&address(5), &address(7)), Ok(()));
    assert_eq!(
        ledger.close_listing(&address(5), &address(7), &address(2)),
        Err(MarketplaceError::VaultNotEmpty)
    );
    assert_eq!(ledger.transfer_asset(&address(5), &address(7), &address(3)), Ok(()));
    assert_eq!(ledger.deposit(&address(4), u64::MAX - 39), Ok(()));
    assert_eq!(
        ledger.close_listing(&address(5), &address(7), &address(4)),
        Err(MarketplaceError::NumericalOverflow)
    );
    assert!(ledger.listing_of(&address(5)).is_some());
    assert_eq!(ledger.close_listing(&address(5), &address(7), &address(2)), Ok(()));
    assert!(ledger.listing_of(&address(5)).is_none());
    assert_eq!(ledger.balance_of(&address(2)), 40);
}

#[test]
fn a_copy_of_the_ledger_stands_apart() {
    let mut ledger = Ledger::new(1);
    assert_eq!(ledger.configure(address(9), config(250)), Ok(()));
    assert_eq!(ledger.deposit(&address(1), 100), Ok(()));
    assert_eq!(ledger.issue_asset(&address(5), &address(1)), Ok(()));
    let copy = ledger.duplicate();
    assert_eq!(ledger.transfer_funds(&address(1), &address(2), 100), Ok(()));
    assert_eq!(ledger.transfer_asset(&address(5), &address(1), &address(2)), Ok(()));
    assert_eq!(copy.balance_of(&address(1)), 100);
    assert_eq!(copy.balance_of(&address(2)), 0);
    assert_eq!(copy.holder_of(&address(5)).unwrap().bytes, address(1).bytes);
    assert_eq!(copy.market(&address(9)).unwrap().config.name, "m");
    assert_eq!(copy.reserve(), 1);
}

#[test]
fn a_configuration_is_held_to_its_bounds() {
    let mut ledger = Ledger::new(0);
    let mut long = config(250);
    long.name = "a".repeat(33);
    assert_eq!(ledger.configure(address(9), long), Err(MarketplaceError::NameTooLong));
    assert_eq!(ledger.configure(address(9), config(10_001)), Err(MarketplaceError::FeeTooHigh));
    assert!(ledger.market(&address(9)).is_none());
    assert_eq!(ledger.configure(address(9), config(10_000)), Ok(()));
}

#[test]
fn a_listing_has_a_price() {
    let mut ledger = Ledger::new(0);
    let free = Listing { maker: address(1), maker_mint: address(5), price: 0, bump: 250 };
    assert_eq!(ledger.configure(address(9), config(250)), Ok(()));
    assert_eq!(
        ledger.open_listing(&address(9), free, address(7)),
        Err(MarketplaceError::InvalidPrice)
    );
    assert!(ledger.listing_of(&address(5)).is_none());
}
