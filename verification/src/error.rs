use vstd::prelude::*;

verus! {

/// Why an instruction was refused. A refused instruction leaves the ledger as
/// it found it.
#[derive(Clone, Copy, Debug, PartialEq, Eq, Structural)]
pub enum MarketplaceError {
    /// The marketplace name is longer than 32 bytes.
    NameTooLong,
    /// The asset does not belong to the collection it was offered under.
    InvalidCollection,
    /// The asset's membership in its collection has not been verified.
    UnverifiedCollection,
    /// A balance would leave the range of 64 bits.
    NumericalOverflow,
    /// The fee computation left the range of 64 bits.
    MathOverflow,
    /// The fee rate is above what is accepted: 100% in a configuration, 50%
    /// when a sale is settled.
    FeeTooHigh,
    /// The caller is not the maker recorded in the listing.
    Unauthorized,
    /// No marketplace is configured under the address named.
    MarketplaceNotFound,
    /// A marketplace is configured under the address already.
    MarketplaceExists,
    /// The asset is not listed on the marketplace named, or not by the seller
    /// named.
    ListingNotFound,
    /// The asset is listed already.
    ListingExists,
    /// The payer's balance is below the amount due.
    InsufficientFunds,
    /// The authority offered does not hold the asset.
    AssetNotHeld,
    /// The asset has been issued already.
    AssetExists,
    /// The listing address offered is not the authority derived for the
    /// listing, or not the one that its vault is under.
    InvalidAuthority,
    /// The vault still holds the asset.
    VaultNotEmpty,
    /// The price asked is zero.
    InvalidPrice,
}

} // verus!
