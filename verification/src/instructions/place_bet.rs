//! Placing a wager: the record is created and the stake is paid into the
//! vault.

use crate::errors::DiceError;
use crate::ledger::{SystemAccount, Vault};
use crate::state::{Bet, BetAccount, WagerState, MAX_THRESHOLD, MIN_THRESHOLD};
use vstd::prelude::*;

verus! {

/// The bumps of the derived accounts that placing a wager touches.
#[derive(Clone, Copy, Debug, PartialEq, Eq)]
pub struct PlaceBetBumps {
    /// The bump of the vault.
    pub vault: u8,
    /// The bump of the wager record.
    pub bet: u8,
}

/// The accounts that placing a wager touches.
#[derive(Clone, Copy, Debug, PartialEq, Eq)]
pub struct PlaceBet {
    /// The player, who stakes.
    pub player: SystemAccount,
    /// The vault that takes the stake.
    pub vault: Vault,
    /// The place of the wager record; empty until the wager is created.
    pub bet: Option<BetAccount>,
    /// The current slot.
    pub slot: u64,
}

/// The wager that creation records.
pub open spec fn new_bet(
    player: SystemAccount,
    slot: u64,
    bumps: PlaceBetBumps,
    seed: u64,
    roll: u8,
    amount: u64,
) -> BetAccount {
    BetAccount {
        bet: Bet { player: player.key, seed, amount, roll, slot, bump: bumps.bet },
        state: WagerState::Open,
        lamports: 0,
    }
}

/// A wager that has been placed is well formed and open: it has a stake
/// and a threshold from 1 to 100, belongs to the player who paid, carries
/// the slot of its placing, and the vault holds its stake. Well-formed
/// accounts stay well formed.
pub proof fn lemma_placed_bet_is_well_formed(
    before: PlaceBet,
    bumps: PlaceBetBumps,
    seed: u64,
    roll: u8,
    amount: u64,
)
    requires
        before.placed(bumps, seed, roll, amount) is Ok,
    ensures
        ({
            let after = before.placed(bumps, seed, roll, amount)->Ok_0;
            &&& before.bet is None
            &&& after.bet == Some(new_bet(before.player, before.slot, bumps, seed, roll, amount))
            &&& after.bet->Some_0.bet.wf()
            &&& after.bet->Some_0.state == WagerState::Open
            &&& after.bet->Some_0.bet.player == before.player.key
            &&& after.vault.lamports == before.vault.lamports + amount
            &&& after.player.lamports + amount == before.player.lamports
            &&& before.wf() ==> after.wf()
        }),
{
}

/// With well-formed accounts a wager is placed whenever its terms are in
/// range, the record's place is free and the player holds the stake: the
/// vault's balance cannot leave 64 bits.
pub proof fn lemma_place_goes_through(
    before: PlaceBet,
    bumps: PlaceBetBumps,
    seed: u64,
    roll: u8,
    amount: u64,
)
    requires
        before.wf(),
        before.bet is None,
        MIN_THRESHOLD <= roll <= MAX_THRESHOLD,
        0 < amount <= before.player.lamports,
    ensures
        before.placed(bumps, seed, roll, amount) is Ok,
{
}

impl PlaceBet {
    /// The accounts as a ledger presents them: the two balances, being
    /// balances of one ledger, add up within 64 bits, and a record that is
    /// there is well formed and the player's own.
    pub open spec fn wf(self) -> bool {
        &&& self.player.lamports + self.vault.lamports <= u64::MAX
        &&& self.bet matches Some(record) ==> record.bet.wf() && record.bet.player@
            == self.player.key@
    }

    /// The accounts after the wager record is created. The threshold must
    /// lie in 1..=100, the stake must not be empty, and the record's place
    /// must be free. No lamports move.
    pub open spec fn bet_created(
        self,
        bumps: PlaceBetBumps,
        seed: u64,
        roll: u8,
        amount: u64,
    ) -> Result<PlaceBet, DiceError> {
        if roll < MIN_THRESHOLD || roll > MAX_THRESHOLD || amount == 0 {
            Err(DiceError::InvalidParameters)
        } else if self.bet is Some {
            Err(DiceError::InvalidStateTransition)
        } else {
            Ok(
                PlaceBet {
                    bet: Some(new_bet(self.player, self.slot, bumps, seed, roll, amount)),
                    ..self
                },
            )
        }
    }

    /// The accounts after the player has paid `amount` into the vault.
    pub open spec fn deposit_made(self, amount: u64) -> Result<PlaceBet, DiceError> {
        match self.vault.deposited(self.player, amount) {
            Ok((vault, player)) => Ok(PlaceBet { player, vault, ..self }),
            Err(e) => Err(e),
        }
    }

    /// The accounts after the wager is placed: created, then funded.
    pub open spec fn placed(
        self,
        bumps: PlaceBetBumps,
        seed: u64,
        roll: u8,
        amount: u64,
    ) -> Result<PlaceBet, DiceError> {
        match self.bet_created(bumps, seed, roll, amount) {
            Ok(created) => created.deposit_made(amount),
            Err(e) => Err(e),
        }
    }

    /// Creates the wager record: an open wager of the player, stamped with
    /// the current slot. Moves no lamports.
    pub fn create_bet(&mut self, bumps: &PlaceBetBumps, seed: u64, roll: u8, amount: u64) -> (r:
        Result<(), DiceError>)
        ensures
            match old(self).bet_created(*bumps, seed, roll, amount) {
                Ok(after) => r == Ok::<(), DiceError>(()) && *final(self) == after,
                Err(e) => r == Err::<(), DiceError>(e) && *final(self) == *old(self),
            },
    {
        if roll < MIN_THRESHOLD || roll > MAX_THRESHOLD || amount == 0 {
            return Err(DiceError::InvalidParameters);
        }
        if self.bet.is_some() {
            return Err(DiceError::InvalidStateTransition);
        }
        self.bet = Some(
            BetAccount {
                bet: Bet {
                    player: self.player.key,
                    seed,
                    amount,
                    roll,
                    slot: self.slot,
                    bump: bumps.bet,
                },
                state: WagerState::Open,
                lamports: 0,
            },
        );
        Ok(())
    }

    /// Moves `amount` from the player into the vault.
    pub fn deposit(&mut self, amount: u64) -> (r: Result<(), DiceError>)
        ensures
            match old(self).deposit_made(amount) {
                Ok(after) => r == Ok::<(), DiceError>(()) && *final(self) == after,
                Err(e) => r == Err::<(), DiceError>(e) && *final(self) == *old(self),
            },
    {
        self.vault.deposit(&mut self.player, amount)
    }
}

} // verus!
