use crate::address::Address;
use vstd::prelude::*;

verus! {

/// The custody record that holds a listed asset.
#[derive(Clone, Copy, Debug)]
pub struct EscrowVault {
    /// The asset that the vault is for.
    pub held_asset_id: Address,
    /// The derived authority that alone may move the asset out or close the vault.
    pub authority: Address,
}

/// Where the marketplace's fees accumulate.
#[derive(Clone, Copy, Debug)]
pub struct TreasuryAccount {
    pub balance: u64,
}

} // verus!
