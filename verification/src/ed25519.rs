//! The attestation: the house's Ed25519 signature over a wager, as the
//! record that the Ed25519 program checked in the same transaction.

use crate::bytes::bytes_eq;
use crate::errors::VerificationError;
use crate::pubkey::Pubkey;
use crate::state::{lemma_message_binds_wager, Bet};
use vstd::prelude::*;

verus! {

/// One signature of an Ed25519 verification record.
#[derive(Clone, Debug, PartialEq, Eq)]
pub struct Ed25519InstructionSignature {
    /// Whether key, signature and message all lie in the record itself, so
    /// that the Ed25519 program checked exactly these bytes.
    pub is_verifiable: bool,
    /// The signer, where the record holds it.
    pub public_key: Option<Pubkey>,
    /// The 64 signature bytes, where the record holds them.
    pub signature: Option<[u8; 64]>,
    /// The signed message, where the record holds it.
    pub message: Option<Vec<u8>>,
}

/// A verification record: the instruction that stands first in the
/// transaction, with its data already unpacked into signatures.
#[derive(Clone, Debug, PartialEq, Eq)]
pub struct Ed25519Instruction {
    /// The program that the instruction is addressed to.
    pub program_id: Pubkey,
    /// How many accounts the instruction names.
    pub accounts: usize,
    /// The signatures that its data holds.
    pub signatures: Vec<Ed25519InstructionSignature>,
}

/// The address of the Ed25519 program,
/// `Ed25519SigVerify111111111111111111111111111`, as bytes.
pub open spec fn ed25519_program_id() -> Seq<u8> {
    seq![
        3u8, 125, 70, 214, 124, 147, 251, 190, 18, 249, 66, 143, 131, 141, 64, 255,
        5, 112, 116, 73, 39, 244, 138, 100, 252, 202, 112, 68, 128, 0, 0, 0,
    ]
}

/// Whether one attestation binds `expected_signer` to `bet` and carries
/// `signature`: the signer is checked first, then the form, then the
/// message, then the signature bytes.
pub open spec fn attestation_check(
    expected_signer: Pubkey,
    bet: Bet,
    attestation: Ed25519InstructionSignature,
    signature: Seq<u8>,
) -> Result<(), VerificationError> {
    if !(attestation.public_key matches Some(key) && key@ == expected_signer@) {
        Err(VerificationError::Ed25519Pubkey)
    } else if !attestation.is_verifiable {
        Err(VerificationError::Ed25519Header)
    } else if !(attestation.message matches Some(message) && message@ == bet.message()) {
        Err(VerificationError::Ed25519Message)
    } else if !(attestation.signature matches Some(bytes) && bytes@ == signature) {
        Err(VerificationError::Ed25519Signature)
    } else {
        Ok(())
    }
}

/// Whether an instruction can be a verification record at all: it must be
/// addressed to the Ed25519 program and name no accounts.
pub open spec fn origin_check(program_id: Pubkey, accounts: usize) -> Result<
    (),
    VerificationError,
> {
    if program_id@ != ed25519_program_id() {
        Err(VerificationError::Ed25519Program)
    } else if accounts != 0 {
        Err(VerificationError::Ed25519Accounts)
    } else {
        Ok(())
    }
}

/// Whether a verification record attests `bet` for `expected_signer` with
/// `signature`: it must pass `origin_check` and hold exactly one
/// attestation, which must pass `attestation_check`.
pub open spec fn verification(
    expected_signer: Pubkey,
    bet: Bet,
    instruction: Ed25519Instruction,
    signature: Seq<u8>,
) -> Result<(), VerificationError> {
    match origin_check(instruction.program_id, instruction.accounts) {
        Err(e) => Err(e),
        Ok(()) => {
            if instruction.signatures@.len() != 1 {
                Err(VerificationError::Ed25519DataLength)
            } else {
                attestation_check(expected_signer, bet, instruction.signatures@[0], signature)
            }
        },
    }
}

/// A record is accepted exactly when it comes from the Ed25519 program,
/// names no accounts, and holds one attestation that is self-contained,
/// signed by the expected signer, over the serialized wager, with the
/// presented signature.
pub proof fn lemma_verification_accepts_exactly(
    expected_signer: Pubkey,
    bet: Bet,
    instruction: Ed25519Instruction,
    signature: Seq<u8>,
)
    ensures
        verification(expected_signer, bet, instruction, signature) is Ok <==> {
            &&& instruction.program_id@ == ed25519_program_id()
            &&& instruction.accounts == 0
            &&& instruction.signatures@.len() == 1
            &&& instruction.signatures@[0].is_verifiable
            &&& instruction.signatures@[0].public_key matches Some(key) && key@ == expected_signer@
            &&& instruction.signatures@[0].message matches Some(message) && message@
                == bet.message()
            &&& instruction.signatures@[0].signature matches Some(bytes) && bytes@ == signature
        },
{
}

/// A record with no attestation, or with more than one, is rejected.
pub proof fn lemma_rejects_attestation_count(
    expected_signer: Pubkey,
    bet: Bet,
    instruction: Ed25519Instruction,
    signature: Seq<u8>,
)
    requires
        instruction.signatures@.len() != 1,
    ensures
        verification(expected_signer, bet, instruction, signature) is Err,
{
}

/// An attestation that names another signer than the expected one, or
/// none, is rejected.
pub proof fn lemma_rejects_wrong_signer(
    expected_signer: Pubkey,
    bet: Bet,
    instruction: Ed25519Instruction,
    signature: Seq<u8>,
)
    requires
        instruction.signatures@.len() == 1,
        !(instruction.signatures@[0].public_key matches Some(key) && key@ == expected_signer@),
    ensures
        verification(expected_signer, bet, instruction, signature) is Err,
{
}

/// An attestation that is not in the self-contained form is rejected.
pub proof fn lemma_rejects_unverifiable_form(
    expected_signer: Pubkey,
    bet: Bet,
    instruction: Ed25519Instruction,
    signature: Seq<u8>,
)
    requires
        instruction.signatures@.len() == 1,
        !instruction.signatures@[0].is_verifiable,
    ensures
        verification(expected_signer, bet, instruction, signature) is Err,
{
}

/// An attestation over any other message than the serialized wager is
/// rejected, however little the message differs.
pub proof fn lemma_rejects_altered_message(
    expected_signer: Pubkey,
    bet: Bet,
    instruction: Ed25519Instruction,
    signature: Seq<u8>,
)
    requires
        instruction.signatures@.len() == 1,
        !(instruction.signatures@[0].message matches Some(message) && message@ == bet.message()),
    ensures
        verification(expected_signer, bet, instruction, signature) is Err,
{
}

/// A signature other than the attested one is rejected, so the roll cannot
/// be derived from bytes that the house did not sign with.
pub proof fn lemma_rejects_substituted_signature(
    expected_signer: Pubkey,
    bet: Bet,
    instruction: Ed25519Instruction,
    signature: Seq<u8>,
)
    requires
        instruction.signatures@.len() == 1,
        !(instruction.signatures@[0].signature matches Some(bytes) && bytes@ == signature),
    ensures
        verification(expected_signer, bet, instruction, signature) is Err,
{
}

/// An accepted signature has 64 bytes.
pub proof fn lemma_accepted_signature_len(
    expected_signer: Pubkey,
    bet: Bet,
    instruction: Ed25519Instruction,
    signature: Seq<u8>,
)
    requires
        verification(expected_signer, bet, instruction, signature) is Ok,
    ensures
        signature.len() == 64,
{
}

/// One record attests one wager: two wagers that the same record is
/// accepted for have the same player, seed, stake, threshold and bump.
pub proof fn lemma_attestation_binds_wager(
    expected_signer: Pubkey,
    first: Bet,
    second: Bet,
    instruction: Ed25519Instruction,
    signature: Seq<u8>,
)
    requires
        verification(expected_signer, first, instruction, signature) is Ok,
        verification(expected_signer, second, instruction, signature) is Ok,
    ensures
        first.player@ == second.player@,
        first.seed == second.seed,
        first.amount == second.amount,
        first.roll == second.roll,
        first.bump == second.bump,
{
    lemma_message_binds_wager(first, second);
}

/// `solana_program::ed25519_program::check_id`: whether `key` is the
/// address of the Ed25519 program. The contract sets the address down as
/// the 32 bytes of `ed25519_program_id`; that these are the bytes of
/// `solana_program::ed25519_program::ID` is taken on trust.
#[verifier::external_body]
fn is_ed25519_program(key: &Pubkey) -> (r: bool)
    ensures
        r == (key@ == ed25519_program_id()),
{
    solana_program::ed25519_program::check_id(
        &solana_program::pubkey::Pubkey::new_from_array(key.bytes),
    )
}

/// Checks where an instruction comes from, before its data is looked at:
/// it must be addressed to the Ed25519 program and name no accounts.
pub fn check_origin(program_id: &Pubkey, accounts: usize) -> (r: Result<(), VerificationError>)
    ensures
        r == origin_check(*program_id, accounts),
{
    if !is_ed25519_program(program_id) {
        return Err(VerificationError::Ed25519Program);
    }
    if accounts != 0 {
        return Err(VerificationError::Ed25519Accounts);
    }
    Ok(())
}

/// Checks one attestation against the expected signer, the wager and the
/// signature presented for the roll.
pub fn check_attestation(
    expected_signer: &Pubkey,
    bet: &Bet,
    attestation: &Ed25519InstructionSignature,
    signature: &[u8],
) -> (r: Result<(), VerificationError>)
    ensures
        r == attestation_check(*expected_signer, *bet, *attestation, signature@),
{
    let signer_ok = match &attestation.public_key {
        Some(key) => key.same(expected_signer),
        None => false,
    };
    if !signer_ok {
        return Err(VerificationError::Ed25519Pubkey);
    }
    if !attestation.is_verifiable {
        return Err(VerificationError::Ed25519Header);
    }
    let message_ok = match &attestation.message {
        Some(message) => {
            let expected: Vec<u8> = bet.to_slice();
            bytes_eq(message.as_slice(), expected.as_slice())
        },
        None => false,
    };
    if !message_ok {
        return Err(VerificationError::Ed25519Message);
    }
    let signature_ok = match &attestation.signature {
        Some(bytes) => bytes_eq(bytes.as_slice(), signature),
        None => false,
    };
    if !signature_ok {
        return Err(VerificationError::Ed25519Signature);
    }
    Ok(())
}

/// Verifies that `instruction` is the house's attestation of `bet`, and
/// that `signature` is the attested signature.
pub fn verify(
    expected_signer: &Pubkey,
    bet: &Bet,
    instruction: &Ed25519Instruction,
    signature: &[u8],
) -> (r: Result<(), VerificationError>)
    ensures
        r == verification(*expected_signer, *bet, *instruction, signature@),
{
    match check_origin(&instruction.program_id, instruction.accounts) {
        Ok(()) => {},
        Err(e) => {
            return Err(e);
        },
    }
    if instruction.signatures.len() != 1 {
        return Err(VerificationError::Ed25519DataLength);
    }
    check_attestation(expected_signer, bet, &instruction.signatures[0], signature)
}

} // verus!
