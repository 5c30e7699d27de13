//! The ways in which an operation of the engine is refused.

use vstd::prelude::*;

verus! {

/// Why an attestation was not accepted.
#[derive(Clone, Copy, Debug, PartialEq, Eq, Structural)]
pub enum VerificationError {
    /// The verification record was not issued by the Ed25519 program.
    Ed25519Program,
    /// The verification record names accounts; it must name none.
    Ed25519Accounts,
    /// The record holds no attestation, or more than one.
    Ed25519DataLength,
    /// The attestation was not signed by the house.
    Ed25519Pubkey,
    /// The attestation is not in the self-contained form that the Ed25519
    /// program checks as a whole.
    Ed25519Header,
    /// The signed message is not the serialized wager.
    Ed25519Message,
    /// The signature presented for the roll is not the attested one.
    Ed25519Signature,
}

/// Why an operation was refused. A refused operation changes nothing.
#[derive(Clone, Copy, Debug, PartialEq, Eq, Structural)]
pub enum DiceError {
    /// A threshold outside 1..=100, or an empty stake.
    InvalidParameters,
    /// The attestation did not pass verification.
    VerificationFailed(VerificationError),
    /// Payout or balance arithmetic left the range of its type, or would
    /// have divided by zero.
    ArithmeticError,
    /// The paying account holds less than the amount to move.
    InsufficientFunds,
    /// The vault holds less than the amount it owes.
    InsufficientVaultFunds,
    /// The wager is not in the state that the operation starts from.
    InvalidStateTransition,
    /// The refund window has not yet opened.
    RefundNotPermitted,
    /// The account or the derived authority is not the one entitled.
    Unauthorized,
}

} // verus!
