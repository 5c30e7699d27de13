//! Funding the vault.

use crate::errors::DiceError;
use crate::ledger::{SystemAccount, Vault};
use vstd::prelude::*;

verus! {

/// The accounts that funding a vault touches.
#[derive(Clone, Copy, Debug, PartialEq, Eq)]
pub struct Initialize {
    /// The house, which pays.
    pub house: SystemAccount,
    /// The house's vault.
    pub vault: Vault,
}

impl Initialize {
    /// The accounts after the house has paid `amount` into its vault.
    pub open spec fn funded(self, amount: u64) -> Result<Initialize, DiceError> {
        if self.house.key@ != self.vault.house@ {
            Err(DiceError::Unauthorized)
        } else {
            match self.vault.deposited(self.house, amount) {
                Ok((vault, house)) => Ok(Initialize { house, vault }),
                Err(e) => Err(e),
            }
        }
    }

    /// Moves `amount` from the house into its vault. Only the vault's own
    /// house funds it.
    pub fn init(&mut self, amount: u64) -> (r: Result<(), DiceError>)
        ensures
            match old(self).funded(amount) {
                Ok(after) => r == Ok::<(), DiceError>(()) && *final(self) == after,
                Err(e) => r == Err::<(), DiceError>(e) && *final(self) == *old(self),
            },
    {
        if !self.house.key.same(&self.vault.house) {
            return Err(DiceError::Unauthorized);
        }
        self.vault.deposit(&mut self.house, amount)
    }
}

} // verus!
