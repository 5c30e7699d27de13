//! The ledger: balances, the vault, and the two ways lamports move between
//! them.
//!
//! Stakes flow into the vault from whoever pays. Lamports leave the vault
//! only under its derived authority, which is computed from public seeds
//! and is not a private key anyone holds.

use crate::errors::DiceError;
use crate::pubkey::Pubkey;
use vstd::prelude::*;
use vstd::slice::slice_to_vec;

verus! {

/// The fixed label from which, with the house's key, the vault's authority
/// is derived: the ASCII bytes of `vault`.
pub const VAULT_LABEL: [u8; 5] = [118, 97, 117, 108, 116];

/// An account that holds lamports and nothing else.
#[derive(Clone, Copy, Debug, PartialEq, Eq)]
pub struct SystemAccount {
    /// The account's address.
    pub key: Pubkey,
    /// Its balance.
    pub lamports: u64,
}

/// The pooled balance of one house. Every stake is credited to it; every
/// payout and refund is debited from it.
#[derive(Clone, Copy, Debug, PartialEq, Eq)]
pub struct Vault {
    /// The house whose wagers this vault backs.
    pub house: Pubkey,
    /// The pooled balance.
    pub lamports: u64,
}

/// The capability to spend from a vault: the seeds that sign for it. Only
/// the vault hands one out, and only for itself.
#[derive(Clone, Copy, Debug, PartialEq, Eq)]
pub struct VaultAuthority {
    house: Pubkey,
    bump: u8,
}

impl VaultAuthority {
    /// The house of the vault that this authority speaks for.
    pub closed spec fn house(self) -> Pubkey {
        self.house
    }

    /// The bump that completes the seeds.
    pub closed spec fn bump(self) -> u8 {
        self.bump
    }

    /// Whether this is the authority of `vault`: it was derived from the
    /// key of the vault's house.
    pub open spec fn is_for(self, vault: Vault) -> bool {
        self.house()@ == vault.house@
    }

    /// The seeds that sign for the vault: the label, the house's key, and
    /// the bump.
    pub fn signer_seeds(&self) -> (seeds: Vec<Vec<u8>>)
        ensures
            seeds@.len() == 3,
            seeds@[0]@ == VAULT_LABEL@,
            seeds@[1]@ == self.house()@,
            seeds@[2]@ == seq![self.bump()],
    {
        let label: [u8; 5] = VAULT_LABEL;
        let key: [u8; 32] = self.house.to_bytes();
        let mut last: Vec<u8> = Vec::new();
        last.push(self.bump);
        let mut seeds: Vec<Vec<u8>> = Vec::new();
        seeds.push(slice_to_vec(label.as_slice()));
        seeds.push(slice_to_vec(key.as_slice()));
        seeds.push(last);
        seeds
    }
}

impl SystemAccount {
    /// An account at `key` that holds `lamports`.
    pub fn new(key: Pubkey, lamports: u64) -> (account: SystemAccount)
        ensures
            account == (SystemAccount { key, lamports }),
    {
        SystemAccount { key, lamports }
    }

    /// The account after `amount` is credited to it.
    pub open spec fn credited(self, amount: u64) -> Result<SystemAccount, DiceError> {
        if self.lamports + amount > u64::MAX {
            Err(DiceError::ArithmeticError)
        } else {
            Ok(SystemAccount { lamports: (self.lamports + amount) as u64, ..self })
        }
    }

    /// Credits `amount`, unless the balance would leave 64 bits.
    pub(crate) fn credit(&mut self, amount: u64) -> (r: Result<(), DiceError>)
        ensures
            match old(self).credited(amount) {
                Ok(account) => r == Ok::<(), DiceError>(()) && *final(self) == account,
                Err(e) => r == Err::<(), DiceError>(e) && *final(self) == *old(self),
            },
    {
        match self.lamports.checked_add(amount) {
            Some(sum) => {
                self.lamports = sum;
                Ok(())
            },
            None => Err(DiceError::ArithmeticError),
        }
    }
}

impl Vault {
    /// The vault of `house`, holding `lamports`.
    pub fn new(house: Pubkey, lamports: u64) -> (vault: Vault)
        ensures
            vault == (Vault { house, lamports }),
    {
        Vault { house, lamports }
    }

    /// The vault and the payer after `amount` moves from `from` into the
    /// vault.
    pub open spec fn deposited(self, from: SystemAccount, amount: u64) -> Result<
        (Vault, SystemAccount),
        DiceError,
    > {
        if from.lamports < amount {
            Err(DiceError::InsufficientFunds)
        } else if self.lamports + amount > u64::MAX {
            Err(DiceError::ArithmeticError)
        } else {
            Ok(
                (
                    Vault { lamports: (self.lamports + amount) as u64, ..self },
                    SystemAccount { lamports: (from.lamports - amount) as u64, ..from },
                ),
            )
        }
    }

    /// The vault and the payee after `amount` moves out of the vault to
    /// `to` under `authority`.
    pub open spec fn withdrawn(
        self,
        to: SystemAccount,
        amount: u64,
        authority: VaultAuthority,
    ) -> Result<(Vault, SystemAccount), DiceError> {
        if !authority.is_for(self) {
            Err(DiceError::Unauthorized)
        } else if self.lamports < amount {
            Err(DiceError::InsufficientVaultFunds)
        } else if to.lamports + amount > u64::MAX {
            Err(DiceError::ArithmeticError)
        } else {
            Ok(
                (
                    Vault { lamports: (self.lamports - amount) as u64, ..self },
                    SystemAccount { lamports: (to.lamports + amount) as u64, ..to },
                ),
            )
        }
    }

    /// Derives the vault's spending authority from its seeds: the label,
    /// the key of the vault's house, and `bump`.
    pub fn authority(&self, bump: u8) -> (authority: VaultAuthority)
        ensures
            authority.is_for(*self),
            authority.house() == self.house,
            authority.bump() == bump,
    {
        VaultAuthority { house: self.house, bump }
    }

    /// Moves `amount` from `from` into the vault. No authority is needed to
    /// pay in.
    pub fn deposit(&mut self, from: &mut SystemAccount, amount: u64) -> (r: Result<(), DiceError>)
        ensures
            match old(self).deposited(*old(from), amount) {
                Ok((vault, payer)) => {
                    &&& r == Ok::<(), DiceError>(())
                    &&& *final(self) == vault
                    &&& *final(from) == payer
                },
                Err(e) => {
                    &&& r == Err::<(), DiceError>(e)
                    &&& *final(self) == *old(self)
                    &&& *final(from) == *old(from)
                },
            },
    {
        if from.lamports < amount {
            return Err(DiceError::InsufficientFunds);
        }
        match self.lamports.checked_add(amount) {
            Some(sum) => {
                self.lamports = sum;
                from.lamports = from.lamports - amount;
                Ok(())
            },
            None => Err(DiceError::ArithmeticError),
        }
    }

    /// Moves `amount` out of the vault to `to`. The authority must be the
    /// vault's own, and the vault must hold the amount.
    pub fn withdraw_as_vault(
        &mut self,
        to: &mut SystemAccount,
        amount: u64,
        authority: &VaultAuthority,
    ) -> (r: Result<(), DiceError>)
        ensures
            match old(self).withdrawn(*old(to), amount, *authority) {
                Ok((vault, payee)) => {
                    &&& r == Ok::<(), DiceError>(())
                    &&& *final(self) == vault
                    &&& *final(to) == payee
                },
                Err(e) => {
                    &&& r == Err::<(), DiceError>(e)
                    &&& *final(self) == *old(self)
                    &&& *final(to) == *old(to)
                },
            },
    {
        if !authority.house.same(&self.house) {
            return Err(DiceError::Unauthorized);
        }
        if self.lamports < amount {
            return Err(DiceError::InsufficientVaultFunds);
        }
        match to.lamports.checked_add(amount) {
            Some(sum) => {
                to.lamports = sum;
                self.lamports = self.lamports - amount;
                Ok(())
            },
            None => Err(DiceError::ArithmeticError),
        }
    }
}

} // verus!
