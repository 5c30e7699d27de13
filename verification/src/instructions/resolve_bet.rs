//! Settling a wager on the house's attestation.

use crate::ed25519::{verification, verify, Ed25519Instruction};
use crate::errors::DiceError;
use crate::instructions::refund_bet::RefundBet;
use crate::ledger::{SystemAccount, Vault};
use crate::outcome::{derive_outcome, lemma_outcome_in_range, outcome_of};
use crate::payout::{lemma_payout_fits, payout_of, settlement, Outcome};
use crate::state::{BetAccount, WagerState};
use vstd::prelude::*;

verus! {

/// The bumps of the derived accounts that settling touches.
#[derive(Clone, Copy, Debug, PartialEq, Eq)]
pub struct ResolveBetBumps {
    /// The bump of the vault.
    pub vault: u8,
}

/// The accounts that settling a wager touches. The house is the one that
/// the vault belongs to; its key is the signer that the attestation must
/// name.
#[derive(Clone, Debug, PartialEq, Eq)]
pub struct ResolveBet {
    /// The account that a payout goes to; it must be the wager's player.
    pub player: SystemAccount,
    /// The vault that backs the wager.
    pub vault: Vault,
    /// The wager record.
    pub bet: BetAccount,
    /// The verification record that accompanies the settlement.
    pub instruction: Ed25519Instruction,
}

/// What an outcome moves from the vault to the player.
pub open spec fn owed(outcome: Outcome) -> u128 {
    match outcome {
        Outcome::Win(amount) => amount,
        Outcome::Lose => 0,
    }
}

/// A settled wager is final: it can be neither settled again nor
/// refunded.
pub proof fn lemma_settled_is_final(
    ctx: ResolveBet,
    roll: u8,
    other_roll: u8,
    signature: Seq<u8>,
    refund: RefundBet,
)
    requires
        ctx.settled(roll) is Ok,
        refund.bet == ctx.settled(roll)->Ok_0.0.bet,
    ensures
        ctx.settled(roll)->Ok_0.0.bet.state == WagerState::Resolved,
        ctx.settled(roll)->Ok_0.0.settled(other_roll) == Err::<(ResolveBet, Outcome), DiceError>(
            DiceError::InvalidStateTransition,
        ),
        ctx.settled(roll)->Ok_0.0.resolved(signature) == Err::<(ResolveBet, Outcome), DiceError>(
            DiceError::InvalidStateTransition,
        ),
        refund.refunded() == Err::<RefundBet, DiceError>(DiceError::InvalidStateTransition),
{
}

/// A settlement moves lamports and makes none: what the player, the vault
/// and the record hold together is the same before and after, the vault
/// pays exactly what the outcome owes, and the terms of the wager stay as
/// they were.
pub proof fn lemma_settlement_conserves_lamports(ctx: ResolveBet, roll: u8)
    requires
        ctx.settled(roll) is Ok,
    ensures
        ({
            let (after, outcome) = ctx.settled(roll)->Ok_0;
            &&& after.bet.bet == ctx.bet.bet
            &&& after.vault.lamports == ctx.vault.lamports - owed(outcome)
            &&& after.player.lamports + after.vault.lamports + after.bet.lamports
                == ctx.player.lamports + ctx.vault.lamports + ctx.bet.lamports
        }),
{
}

/// Settling keeps well-formed accounts well formed.
pub proof fn lemma_settled_preserves_wf(ctx: ResolveBet, roll: u8)
    requires
        ctx.wf(),
        ctx.settled(roll) is Ok,
    ensures
        ctx.settled(roll)->Ok_0.0.wf(),
{
}

/// Nothing is settled without an attestation: where the settlement on a
/// signature goes through, the record was accepted for this wager, this
/// house and this signature, and the roll is the one that the signature
/// yields.
pub proof fn lemma_resolved_only_when_attested(ctx: ResolveBet, signature: Seq<u8>)
    requires
        ctx.resolved(signature) is Ok,
    ensures
        verification(ctx.vault.house, ctx.bet.bet, ctx.instruction, signature) is Ok,
        ctx.resolved(signature) == ctx.settled(outcome_of(signature) as u8),
{
}

/// An attested win is paid in full: on an open wager at a threshold from 2
/// to 100, a verified signature whose roll falls below the threshold moves
/// exactly the stake, less the house edge, divided by the threshold less
/// one and then by 100, from the vault to the player, provided the vault
/// holds that much. The record is closed and what it held goes to the
/// player too.
pub proof fn lemma_resolved_win_pays_formula(ctx: ResolveBet, signature: Seq<u8>)
    requires
        ctx.wf(),
        ctx.bet.state == WagerState::Open,
        ctx.verification(signature) is Ok,
        2 <= ctx.bet.bet.roll <= 100,
        ctx.bet.bet.amount > 0,
        outcome_of(signature) < ctx.bet.bet.roll,
        payout_of(ctx.bet.bet.amount, ctx.bet.bet.roll) <= ctx.vault.lamports,
    ensures
        ({
            let paid = ctx.bet.bet.amount * (10000 - 150) / (ctx.bet.bet.roll - 1) / 100;
            &&& ctx.resolved(signature) is Ok
            &&& ctx.resolved(signature)->Ok_0.1 == Outcome::Win(paid as u128)
            &&& ctx.resolved(signature)->Ok_0.0.vault.lamports == ctx.vault.lamports - paid
            &&& ctx.resolved(signature)->Ok_0.0.player.lamports == ctx.player.lamports + paid
                + ctx.bet.lamports
            &&& ctx.resolved(signature)->Ok_0.0.player.key == ctx.player.key
            &&& ctx.resolved(signature)->Ok_0.0.vault.house == ctx.vault.house
            &&& ctx.resolved(signature)->Ok_0.0.bet == ctx.bet.closed(WagerState::Resolved)
        }),
{
    lemma_outcome_in_range(signature);
    lemma_payout_fits(ctx.bet.bet.amount, ctx.bet.bet.roll);
}

/// A payout that does not fit 64 bits is refused as an arithmetic error,
/// whatever the vault holds: on an open wager, a verified signature whose
/// roll falls below the threshold fails the settlement where the payout
/// exceeds `u64::MAX`.
pub proof fn lemma_resolved_payout_beyond_64_bits_fails(ctx: ResolveBet, signature: Seq<u8>)
    requires
        ctx.bet.state == WagerState::Open,
        ctx.verification(signature) is Ok,
        outcome_of(signature) < ctx.bet.bet.roll,
        payout_of(ctx.bet.bet.amount, ctx.bet.bet.roll) > u64::MAX,
    ensures
        ctx.resolved(signature) == Err::<(ResolveBet, Outcome), DiceError>(
            DiceError::ArithmeticError,
        ),
{
    lemma_outcome_in_range(signature);
    lemma_payout_fits(ctx.bet.bet.amount, ctx.bet.bet.roll);
}

/// A vault that holds less than an attested win owes fails the settlement
/// as short of funds: on an open wager, a verified signature whose roll
/// falls below the threshold, with a payout that fits 64 bits and exceeds
/// the vault's balance.
pub proof fn lemma_resolved_short_vault_fails(ctx: ResolveBet, signature: Seq<u8>)
    requires
        ctx.wf(),
        ctx.bet.state == WagerState::Open,
        ctx.verification(signature) is Ok,
        outcome_of(signature) < ctx.bet.bet.roll,
        ctx.vault.lamports < payout_of(ctx.bet.bet.amount, ctx.bet.bet.roll) <= u64::MAX,
    ensures
        ctx.resolved(signature) == Err::<(ResolveBet, Outcome), DiceError>(
            DiceError::InsufficientVaultFunds,
        ),
{
    lemma_outcome_in_range(signature);
    lemma_payout_fits(ctx.bet.bet.amount, ctx.bet.bet.roll);
}

/// An attested loss forfeits the stake: on an open wager, a verified
/// signature whose roll is at or above the threshold settles as a loss.
/// The vault keeps what it holds, the record is closed, and the player
/// receives what the record held and nothing from the vault.
pub proof fn lemma_resolved_loss_forfeits_stake(ctx: ResolveBet, signature: Seq<u8>)
    requires
        ctx.wf(),
        ctx.bet.state == WagerState::Open,
        ctx.verification(signature) is Ok,
        outcome_of(signature) >= ctx.bet.bet.roll,
    ensures
        ctx.resolved(signature) is Ok,
        ctx.resolved(signature)->Ok_0.1 == Outcome::Lose,
        ctx.resolved(signature)->Ok_0.0.vault == ctx.vault,
        ctx.resolved(signature)->Ok_0.0.player.lamports == ctx.player.lamports + ctx.bet.lamports,
        ctx.resolved(signature)->Ok_0.0.player.key == ctx.player.key,
        ctx.resolved(signature)->Ok_0.0.bet == ctx.bet.closed(WagerState::Resolved),
{
    lemma_outcome_in_range(signature);
}

/// A wager at threshold 1 is lost on every attestation: whatever verified
/// signature settles it, the outcome is a loss, no payout is computed, and
/// the vault keeps what it holds.
pub proof fn lemma_resolved_threshold_one_loses(ctx: ResolveBet, signature: Seq<u8>)
    requires
        ctx.wf(),
        ctx.bet.state == WagerState::Open,
        ctx.verification(signature) is Ok,
        ctx.bet.bet.roll == 1,
    ensures
        ctx.resolved(signature) is Ok,
        ctx.resolved(signature)->Ok_0.1 == Outcome::Lose,
        ctx.resolved(signature)->Ok_0.0.vault == ctx.vault,
        ctx.resolved(signature)->Ok_0.0.bet == ctx.bet.closed(WagerState::Resolved),
{
    lemma_outcome_in_range(signature);
    lemma_resolved_loss_forfeits_stake(ctx, signature);
}

impl ResolveBet {
    /// The accounts as a ledger presents them: the record is well formed,
    /// the player account is the wager's player, and the three balances,
    /// being balances of one ledger, add up within 64 bits.
    pub open spec fn wf(self) -> bool {
        &&& self.bet.bet.wf()
        &&& self.player.key@ == self.bet.bet.player@
        &&& self.player.lamports + self.vault.lamports + self.bet.lamports <= u64::MAX
    }

    /// Whether the accompanying record is the house's attestation of this
    /// wager with `sig` as its signature.
    pub open spec fn verification(self, sig: Seq<u8>) -> Result<(), DiceError> {
        match verification(self.vault.house, self.bet.bet, self.instruction, sig) {
            Ok(()) => Ok(()),
            Err(e) => Err(DiceError::VerificationFailed(e)),
        }
    }

    /// The accounts and the outcome after the wager is settled on `roll`.
    /// The wager must be open. The outcome is decided first, and a payout
    /// that does not fit 64 bits is an arithmetic error. Then the payout
    /// moves from the vault to the player, who must be the wager's player;
    /// this fails where the vault holds less. Either way the record is
    /// closed and what it held goes to the player.
    pub open spec fn settled(self, roll: u8) -> Result<(ResolveBet, Outcome), DiceError> {
        if self.bet.state != WagerState::Open {
            Err(DiceError::InvalidStateTransition)
        } else {
            match settlement(self.bet.bet, roll) {
                Err(e) => Err(e),
                Ok(outcome) => {
                    if owed(outcome) > u64::MAX {
                        Err(DiceError::ArithmeticError)
                    } else if self.player.key@ != self.bet.bet.player@ {
                        Err(DiceError::Unauthorized)
                    } else if self.vault.lamports < owed(outcome) {
                        Err(DiceError::InsufficientVaultFunds)
                    } else if self.player.lamports + owed(outcome) + self.bet.lamports
                        > u64::MAX {
                        Err(DiceError::ArithmeticError)
                    } else {
                        Ok(
                            (
                                ResolveBet {
                                    player: SystemAccount {
                                        lamports: (self.player.lamports + owed(outcome)
                                            + self.bet.lamports) as u64,
                                        ..self.player
                                    },
                                    vault: Vault {
                                        lamports: (self.vault.lamports - owed(outcome)) as u64,
                                        ..self.vault
                                    },
                                    bet: self.bet.closed(WagerState::Resolved),
                                    ..self
                                },
                                outcome,
                            ),
                        )
                    }
                },
            }
        }
    }

    /// The accounts and the outcome after the wager is settled on the
    /// attested signature `sig`: an open wager whose attestation verifies
    /// is settled on the roll that `sig` yields.
    pub open spec fn resolved(self, sig: Seq<u8>) -> Result<(ResolveBet, Outcome), DiceError> {
        if self.bet.state != WagerState::Open {
            Err(DiceError::InvalidStateTransition)
        } else {
            match self.verification(sig) {
                Err(e) => Err(e),
                Ok(()) => self.settled(outcome_of(sig) as u8),
            }
        }
    }

    /// Verifies that the accompanying record is the house's attestation of
    /// this wager and that `sig` is the attested signature.
    pub fn verify_ed25519_signature(&self, sig: &[u8]) -> (r: Result<(), DiceError>)
        ensures
            r == self.verification(sig@),
    {
        match verify(&self.vault.house, &self.bet.bet, &self.instruction, sig) {
            Ok(()) => Ok(()),
            Err(e) => Err(DiceError::VerificationFailed(e)),
        }
    }

    /// Settles the wager on a roll that is already known: the part of
    /// `resolve_bet` that follows once the attestation is verified and the
    /// roll derived. It looks at no attestation itself. The vault pays
    /// under its authority, whose seeds the bump completes. Nothing
    /// changes unless the settlement goes through.
    pub fn settle(&mut self, bumps: &ResolveBetBumps, roll: u8) -> (r: Result<Outcome, DiceError>)
        ensures
            match old(self).settled(roll) {
                Ok((after, outcome)) => r == Ok::<Outcome, DiceError>(outcome) && *final(self)
                    == after,
                Err(e) => r == Err::<Outcome, DiceError>(e) && *final(self) == *old(self),
            },
    {
        match self.bet.state {
            WagerState::Open => {},
            _ => {
                return Err(DiceError::InvalidStateTransition);
            },
        }
        let outcome = match self.bet.bet.settle(roll) {
            Ok(outcome) => outcome,
            Err(e) => {
                return Err(e);
            },
        };
        let wide: u128 = match outcome {
            Outcome::Win(amount) => amount,
            Outcome::Lose => 0,
        };
        if wide > (u64::MAX as u128) {
            return Err(DiceError::ArithmeticError);
        }
        let payout: u64 = wide as u64;
        if !self.player.key.same(&self.bet.bet.player) {
            return Err(DiceError::Unauthorized);
        }
        let authority = self.vault.authority(bumps.vault);
        let mut vault: Vault = self.vault;
        let mut player: SystemAccount = self.player;
        match vault.withdraw_as_vault(&mut player, payout, &authority) {
            Ok(()) => {},
            Err(e) => {
                return Err(e);
            },
        }
        match player.credit(self.bet.lamports) {
            Ok(()) => {},
            Err(e) => {
                return Err(e);
            },
        }
        self.vault = vault;
        self.player = player;
        self.bet.state = WagerState::Resolved;
        self.bet.lamports = 0;
        Ok(outcome)
    }

    /// Settles the wager on the house's attestation: verifies it, derives
    /// the roll from the signature, and pays a win out of the vault.
    /// Nothing changes unless all of it goes through.
    pub fn resolve_bet(&mut self, bumps: &ResolveBetBumps, sig: &[u8]) -> (r: Result<
        Outcome,
        DiceError,
    >)
        ensures
            match old(self).resolved(sig@) {
                Ok((after, outcome)) => r == Ok::<Outcome, DiceError>(outcome) && *final(self)
                    == after,
                Err(e) => r == Err::<Outcome, DiceError>(e) && *final(self) == *old(self),
            },
    {
        match self.bet.state {
            WagerState::Open => {},
            _ => {
                return Err(DiceError::InvalidStateTransition);
            },
        }
        match self.verify_ed25519_signature(sig) {
            Ok(()) => {},
            Err(e) => {
                return Err(e);
            },
        }
        let roll: u8 = derive_outcome(sig);
        self.settle(bumps, roll)
    }
}

} // verus!
