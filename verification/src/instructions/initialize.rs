use crate::address::Address;
use crate::error::MarketplaceError;
use crate::ledger::{applied, Ledger, LedgerState, Outcome};
use crate::state::marketplace::Marketplace;
use vstd::prelude::*;

verus! {

/// The bumps of the addresses that a configuration derives.
#[derive(Clone, Copy, Debug)]
pub struct InitializeBumps {
    pub marketplace: u8,
    pub treasury: u8,
    pub reward_mint: u8,
}

/// The accounts of the instruction that configures a marketplace.
#[derive(Clone, Copy, Debug)]
pub struct Initialize {
    /// Who configures the marketplace.
    pub admin: Address,
    /// The address under which the marketplace is configured.
    pub marketplace: Address,
}

impl Initialize {
    /// The configuration that the instruction writes.
    pub open spec fn config(self, name: String, fee: u16, bumps: InitializeBumps) -> Marketplace {
        Marketplace {
            admin: self.admin,
            fee,
            bump: bumps.marketplace,
            treasury_bump: bumps.treasury,
            rewards_bump: bumps.reward_mint,
            name,
        }
    }

    /// What the instruction does to the ledger `s`: it is refused where the name
    /// is longer than 32 bytes, where the fee rate is above 100% and where a
    /// marketplace is configured under the address already, and else writes the
    /// configuration and an empty treasury.
    pub open spec fn init_outcome(
        self,
        s: LedgerState,
        name: String,
        fee: u16,
        bumps: InitializeBumps,
    ) -> Outcome {
        s.configure(self.marketplace, self.config(name, fee, bumps))
    }

    /// Configures a marketplace: its admin, its fee rate, its name and the
    /// bumps of its addresses, with an empty treasury.
    pub fn init(&self, ledger: &mut Ledger, name: String, fee: u16, bumps: &InitializeBumps) -> (r:
        Result<(), MarketplaceError>)
        requires
            old(ledger).wf(),
        ensures
            final(ledger).wf(),
            applied(old(ledger)@, final(ledger)@, r, self.init_outcome(old(ledger)@, name, fee, *bumps)),
    {
        ledger.configure(
            self.marketplace,
            Marketplace {
                admin: self.admin,
                fee,
                bump: bumps.marketplace,
                treasury_bump: bumps.treasury,
                rewards_bump: bumps.reward_mint,
                name,
            },
        )
    }
}

} // verus!
