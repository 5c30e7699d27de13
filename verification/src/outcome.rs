//! Derivation of the roll from the bytes of the house's signature.
//!
//! Anyone who holds the signature can repeat the derivation: the roll is the
//! SHA-256 digest of the signature, folded to a number between 1 and 100.

use crate::bytes::{le_value, read_le_u128};
use vstd::prelude::*;

verus! {

/// The smallest roll.
pub const MIN_ROLL: u8 = 1;

/// The largest roll.
pub const MAX_ROLL: u8 = 100;

/// The SHA-256 digest of `data`: the 32 bytes that
/// `solana_program::hash::hash` returns for it. The digest depends on the
/// bytes of `data` and on nothing else.
pub uninterp spec fn sha256(data: Seq<u8>) -> Seq<u8>;

/// The roll that a 32-byte digest folds to: its two 16-byte halves, read as
/// little-endian numbers, are added modulo 2^128; the sum modulo 100, plus
/// one, is the roll.
pub open spec fn roll_of_digest(digest: Seq<u8>) -> nat {
    let lower = le_value(digest.subrange(0, 16));
    let upper = le_value(digest.subrange(16, 32));
    ((lower + upper) % 0x1_0000_0000_0000_0000_0000_0000_0000_0000nat) % 100 + 1
}

/// The roll that a signature yields.
pub open spec fn outcome_of(signature: Seq<u8>) -> nat {
    roll_of_digest(sha256(signature))
}

/// Every signature yields a roll between 1 and 100.
pub proof fn lemma_outcome_in_range(signature: Seq<u8>)
    ensures
        MIN_ROLL <= outcome_of(signature) <= MAX_ROLL,
{
}

/// The roll depends on the signature bytes alone: the same bytes yield the
/// same roll.
pub proof fn lemma_outcome_is_function_of_signature(first: Seq<u8>, second: Seq<u8>)
    requires
        first =~= second,
    ensures
        outcome_of(first) == outcome_of(second),
{
}

/// `solana_program::hash::hash` followed by `Hash::to_bytes`: the 32 bytes
/// of the SHA-256 digest of `data`. The contract names the digest and says
/// nothing of its value; that the call returns it is taken on trust.
#[verifier::external_body]
fn hash(data: &[u8]) -> (digest: [u8; 32])
    ensures
        digest@ == sha256(data@),
{
    solana_program::hash::hash(data).to_bytes()
}

/// Folds a digest to a roll between 1 and 100.
pub fn roll_from_digest(digest: &[u8; 32]) -> (roll: u8)
    ensures
        roll == roll_of_digest(digest@),
        MIN_ROLL <= roll <= MAX_ROLL,
{
    let lower: u128 = read_le_u128(digest.as_slice(), 0);
    let upper: u128 = read_le_u128(digest.as_slice(), 16);
    let sum: u128 = lower.wrapping_add(upper);
    let folded: u128 = sum % 100;
    (folded as u8) + 1
}

/// Derives the roll from the signature bytes.
pub fn derive_outcome(signature: &[u8]) -> (roll: u8)
    ensures
        roll == outcome_of(signature@),
        MIN_ROLL <= roll <= MAX_ROLL,
{
    let digest: [u8; 32] = hash(signature);
    roll_from_digest(&digest)
}

} // verus!
