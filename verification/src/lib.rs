//! A provably fair dice wager engine.
//!
//! A player stakes lamports against a threshold between 1 and 100. The house
//! later signs the wager record; the signature both authenticates the
//! settlement and is the entropy from which the roll is derived. The player
//! wins when the roll falls strictly below the threshold.
//!
//! The engine works on plain values: the balances and records that an
//! operation touches are handed in, and the operation either goes through
//! as a whole or leaves them as they were.

pub mod bytes;
pub mod ed25519;
pub mod errors;
pub mod instructions;
pub mod ledger;
pub mod outcome;
pub mod payout;
pub mod pubkey;
pub mod state;

pub use crate::ed25519::{Ed25519Instruction, Ed25519InstructionSignature};
pub use crate::errors::{DiceError, VerificationError};
pub use crate::instructions::initialize::Initialize;
pub use crate::instructions::place_bet::{PlaceBet, PlaceBetBumps};
pub use crate::instructions::refund_bet::{RefundBet, RefundBetBumps, REFUND_DELAY_SLOTS};
pub use crate::instructions::resolve_bet::{ResolveBet, ResolveBetBumps};
pub use crate::ledger::{SystemAccount, Vault, VaultAuthority};
pub use crate::outcome::derive_outcome;
pub use crate::payout::{Outcome, HOUSE_EDGE};
pub use crate::pubkey::Pubkey;
pub use crate::state::{Bet, BetAccount, WagerState};

use vstd::prelude::*;

verus! {

/// Funds the house's vault with `amount` lamports of the house.
pub fn initialize(ctx: &mut Initialize, amount: u64) -> (r: Result<(), DiceError>)
    ensures
        match old(ctx).funded(amount) {
            Ok(after) => r == Ok::<(), DiceError>(()) && *final(ctx) == after,
            Err(e) => r == Err::<(), DiceError>(e) && *final(ctx) == *old(ctx),
        },
{
    ctx.init(amount)
}

/// Places a wager: creates the record and pays the stake into the vault,
/// both or neither.
pub fn place_bet(ctx: &mut PlaceBet, bumps: &PlaceBetBumps, seed: u64, roll: u8, amount: u64) -> (r:
    Result<(), DiceError>)
    ensures
        match old(ctx).placed(*bumps, seed, roll, amount) {
            Ok(after) => r == Ok::<(), DiceError>(()) && *final(ctx) == after,
            Err(e) => r == Err::<(), DiceError>(e) && *final(ctx) == *old(ctx),
        },
{
    let before: PlaceBet = *ctx;
    match ctx.create_bet(bumps, seed, roll, amount) {
        Ok(()) => {},
        Err(e) => {
            return Err(e);
        },
    }
    match ctx.deposit(amount) {
        Ok(()) => Ok(()),
        Err(e) => {
            *ctx = before;
            Err(e)
        },
    }
}

/// Settles an open wager on the house's attestation: the attestation is
/// verified, the roll is derived from the signature, and a win is paid out
/// of the vault, all or nothing.
pub fn resolve_bet(ctx: &mut ResolveBet, bumps: &ResolveBetBumps, sig: Vec<u8>) -> (r: Result<
    Outcome,
    DiceError,
>)
    ensures
        match old(ctx).resolved(sig@) {
            Ok((after, outcome)) => r == Ok::<Outcome, DiceError>(outcome) && *final(ctx) == after,
            Err(e) => r == Err::<Outcome, DiceError>(e) && *final(ctx) == *old(ctx),
        },
{
    ctx.resolve_bet(bumps, sig.as_slice())
}

/// Returns the stake of an open wager to its player once the refund window
/// has opened.
pub fn refund_bet(ctx: &mut RefundBet, bumps: &RefundBetBumps) -> (r: Result<(), DiceError>)
    ensures
        match old(ctx).refunded() {
            Ok(after) => r == Ok::<(), DiceError>(()) && *final(ctx) == after,
            Err(e) => r == Err::<(), DiceError>(e) && *final(ctx) == *old(ctx),
        },
{
    ctx.refund_bet(bumps)
}

} // verus!
