//! Refunding a wager that the house has left unsettled.

use crate::errors::DiceError;
use crate::instructions::place_bet::{PlaceBet, PlaceBetBumps};
use crate::ledger::{SystemAccount, Vault};
use crate::state::{BetAccount, WagerState};
use vstd::prelude::*;

verus! {

/// How many slots must have passed since a wager was placed before it can
/// be refunded.
pub const REFUND_DELAY_SLOTS: u64 = 1000;

/// The bumps of the derived accounts that refunding touches.
#[derive(Clone, Copy, Debug, PartialEq, Eq)]
pub struct RefundBetBumps {
    /// The bump of the vault.
    pub vault: u8,
}

/// The accounts that refunding a wager touches.
#[derive(Clone, Copy, Debug, PartialEq, Eq)]
pub struct RefundBet {
    /// The account that the stake goes back to; it must be the wager's
    /// player.
    pub player: SystemAccount,
    /// The vault that holds the stake.
    pub vault: Vault,
    /// The wager record.
    pub bet: BetAccount,
    /// The current slot.
    pub slot: u64,
}

/// Whether a wager placed at slot `placed` can be refunded at slot `now`:
/// more than `REFUND_DELAY_SLOTS` slots have passed.
pub open spec fn refund_permitted(placed: u64, now: u64) -> bool {
    now - placed > REFUND_DELAY_SLOTS
}

/// The accounts of a refund at slot `now`, taken over from the accounts
/// that a wager was placed on.
pub open spec fn refund_of(placed: PlaceBet, now: u64) -> RefundBet {
    RefundBet { player: placed.player, vault: placed.vault, bet: placed.bet->Some_0, slot: now }
}

/// Placing a wager and refunding it before any settlement gives the player
/// the stake back and nothing else: once the refund window has opened the
/// refund goes through and moves exactly the stake from the vault to the
/// player who placed the wager. The player's balance is then what it was
/// before the wager, and so is the vault's: the stake less than just
/// before the refund. The record ends `Refunded`.
pub proof fn lemma_place_then_refund_restores(
    before: PlaceBet,
    bumps: PlaceBetBumps,
    seed: u64,
    roll: u8,
    amount: u64,
    now: u64,
)
    requires
        before.placed(bumps, seed, roll, amount) is Ok,
        refund_permitted(before.slot, now),
    ensures
        ({
            let placed = before.placed(bumps, seed, roll, amount)->Ok_0;
            let refund = refund_of(placed, now).refunded();
            &&& placed.player.lamports == before.player.lamports - amount
            &&& placed.vault.lamports == before.vault.lamports + amount
            &&& refund is Ok
            &&& refund->Ok_0.player.lamports == placed.player.lamports + amount
            &&& refund->Ok_0.player.lamports == before.player.lamports
            &&& refund->Ok_0.vault.lamports == placed.vault.lamports - amount
            &&& refund->Ok_0.vault.lamports == before.vault.lamports
            &&& refund->Ok_0.bet.state == WagerState::Refunded
            &&& refund->Ok_0.player.key == before.player.key
            &&& refund->Ok_0.player.key@ == placed.bet->Some_0.bet.player@
            &&& refund->Ok_0.vault.house == before.vault.house
        }),
{
}

/// A refund returns the stake and no more: on an open wager whose refund
/// window has opened, exactly the stake moves from the vault to the
/// wager's player, provided the vault holds it. The record is closed and
/// what it held goes to the player too.
pub proof fn lemma_refund_returns_stake(ctx: RefundBet)
    requires
        ctx.wf(),
        ctx.bet.state == WagerState::Open,
        refund_permitted(ctx.bet.bet.slot, ctx.slot),
        ctx.vault.lamports >= ctx.bet.bet.amount,
    ensures
        ctx.refunded() is Ok,
        ctx.refunded()->Ok_0.vault.lamports == ctx.vault.lamports - ctx.bet.bet.amount,
        ctx.refunded()->Ok_0.player.lamports == ctx.player.lamports + ctx.bet.bet.amount
            + ctx.bet.lamports,
        ctx.refunded()->Ok_0.player.key == ctx.player.key,
        ctx.refunded()->Ok_0.vault.house == ctx.vault.house,
        ctx.refunded()->Ok_0.bet == ctx.bet.closed(WagerState::Refunded),
{
}

/// A refunded wager is final: it can be refunded no more.
pub proof fn lemma_refunded_is_final(ctx: RefundBet)
    requires
        ctx.refunded() is Ok,
    ensures
        ctx.refunded()->Ok_0.refunded() == Err::<RefundBet, DiceError>(
            DiceError::InvalidStateTransition,
        ),
{
}

/// A refund moves lamports and makes none: what the player, the vault and
/// the record hold together is the same before and after.
pub proof fn lemma_refund_conserves_lamports(ctx: RefundBet)
    requires
        ctx.refunded() is Ok,
    ensures
        ({
            let after = ctx.refunded()->Ok_0;
            after.player.lamports + after.vault.lamports + after.bet.lamports
                == ctx.player.lamports + ctx.vault.lamports + ctx.bet.lamports
        }),
{
}

/// Refunding keeps well-formed accounts well formed.
pub proof fn lemma_refunded_preserves_wf(ctx: RefundBet)
    requires
        ctx.wf(),
        ctx.refunded() is Ok,
    ensures
        ctx.refunded()->Ok_0.wf(),
{
}

impl RefundBet {
    /// The accounts as a ledger presents them: the record is well formed,
    /// the player account is the wager's player, and the three balances,
    /// being balances of one ledger, add up within 64 bits.
    pub open spec fn wf(self) -> bool {
        &&& self.bet.bet.wf()
        &&& self.player.key@ == self.bet.bet.player@
        &&& self.player.lamports + self.vault.lamports + self.bet.lamports <= u64::MAX
    }

    /// The accounts after the wager is refunded. The wager must be open,
    /// the player account the wager's player, and the refund window open.
    /// The stake moves from the vault to the player, which fails where the
    /// vault holds less; the record is closed, and what it held goes to
    /// the player.
    pub open spec fn refunded(self) -> Result<RefundBet, DiceError> {
        if self.bet.state != WagerState::Open {
            Err(DiceError::InvalidStateTransition)
        } else if self.player.key@ != self.bet.bet.player@ {
            Err(DiceError::Unauthorized)
        } else if !refund_permitted(self.bet.bet.slot, self.slot) {
            Err(DiceError::RefundNotPermitted)
        } else if self.vault.lamports < self.bet.bet.amount {
            Err(DiceError::InsufficientVaultFunds)
        } else if self.player.lamports + self.bet.bet.amount + self.bet.lamports > u64::MAX {
            Err(DiceError::ArithmeticError)
        } else {
            Ok(
                RefundBet {
                    player: SystemAccount {
                        lamports: (self.player.lamports + self.bet.bet.amount
                            + self.bet.lamports) as u64,
                        ..self.player
                    },
                    vault: Vault {
                        lamports: (self.vault.lamports - self.bet.bet.amount) as u64,
                        ..self.vault
                    },
                    bet: self.bet.closed(WagerState::Refunded),
                    ..self
                },
            )
        }
    }

    /// Returns the stake of an open wager to its player once the refund
    /// window has opened, and closes the record. The vault pays under its
    /// authority, whose seeds the bump completes. Nothing changes unless
    /// all of it goes through.
    pub fn refund_bet(&mut self, bumps: &RefundBetBumps) -> (r: Result<(), DiceError>)
        ensures
            match old(self).refunded() {
                Ok(after) => r == Ok::<(), DiceError>(()) && *final(self) == after,
                Err(e) => r == Err::<(), DiceError>(e) && *final(self) == *old(self),
            },
    {
        match self.bet.state {
            WagerState::Open => {},
            _ => {
                return Err(DiceError::InvalidStateTransition);
            },
        }
        if !self.player.key.same(&self.bet.bet.player) {
            return Err(DiceError::Unauthorized);
        }
        if self.slot <= self.bet.bet.slot || self.slot - self.bet.bet.slot <= REFUND_DELAY_SLOTS {
            return Err(DiceError::RefundNotPermitted);
        }
        let authority = self.vault.authority(bumps.vault);
        let mut vault: Vault = self.vault;
        let mut player: SystemAccount = self.player;
        match vault.withdraw_as_vault(&mut player, self.bet.bet.amount, &authority) {
            Ok(()) => {},
            Err(e) => {
                return Err(e);
            },
        }
        match player.credit(self.bet.lamports) {
            Ok(()) => {},
            Err(e) => {
                return Err(e);
            },
        }
        self.vault = vault;
        self.player = player;
        self.bet.state = WagerState::Refunded;
        self.bet.lamports = 0;
        Ok(())
    }
}

} // verus!
