use dice_game::ed25519::{check_attestation, verify};
use dice_game::{
    Bet, Ed25519Instruction, Ed25519InstructionSignature, Pubkey, VerificationError,
};

fn house() -> Pubkey {
    Pubkey::new_from_array([9; 32])
}

fn wager() -> Bet {
    Bet { player: Pubkey::new_from_array([7; 32]), seed: 5, amount: 1000, roll: 50, slot: 77, bump: 254 }
}

fn program() -> Pubkey {
    Pubkey::new_from_array(solana_program::ed25519_program::ID.to_bytes())
}

fn attestation(sig: [u8; 64]) -> Ed25519InstructionSignature {
    Ed25519InstructionSignature {
        is_verifiable: true,
        public_key: Some(house()),
        signature: Some(sig),
        message: Some(wager().to_slice()),
    }
}

fn record(signatures: Vec<Ed25519InstructionSignature>) -> Ed25519Instruction {
    Ed25519Instruction { program_id: program(), accounts: 0, signatures }
}

#[test]
fn well_formed_attestation_is_accepted() {
    let sig = [3u8; 64];
    assert_eq!(verify(&house(), &wager(), &record(vec![attestation(sig)]), &sig), Ok(()));
}

#[test]
fn program_address_is_the_ed25519_program() {
    let expected: [u8; 32] = [
        3, 125, 70, 214, 124, 147, 251, 190, 18, 249, 66, 143, 131, 141, 64, 255, 5, 112, 116,
        73, 39, 244, 138, 100, 252, 202, 112, 68, 128, 0, 0, 0,
    ];
    assert_eq!(solana_program::ed25519_program::ID.to_bytes(), expected);
    let sig = [3u8; 64];
    let mut instruction = record(vec![attestation(sig)]);
    instruction.program_id = Pubkey::new_from_array(expected);
    assert_eq!(verify(&house(), &wager(), &instruction, &sig), Ok(()));
}

#[test]
fn record_of_another_program_is_rejected() {
    let sig = [3u8; 64];
    let mut instruction = record(vec![attestation(sig)]);
    instruction.program_id = Pubkey::new_from_array([0; 32]);
    assert_eq!(
        verify(&house(), &wager(), &instruction, &sig),
        Err(VerificationError::Ed25519Program)
    );
    let mut near = solana_program::ed25519_program::ID.to_bytes();
    near[31] ^= 1;
    instruction.program_id = Pubkey::new_from_array(near);
    assert_eq!(
        verify(&house(), &wager(), &instruction, &sig),
        Err(VerificationError::Ed25519Program)
    );
    // A record that passes its own argument off as the program is no better.
    instruction.program_id = house();
    assert_eq!(
        verify(&house(), &wager(), &instruction, &sig),
        Err(VerificationError::Ed25519Program)
    );
}

#[test]
fn record_that_names_accounts_is_rejected() {
    let sig = [3u8; 64];
    let mut instruction = record(vec![attestation(sig)]);
    instruction.accounts = 1;
    assert_eq!(
        verify(&house(), &wager(), &instruction, &sig),
        Err(VerificationError::Ed25519Accounts)
    );
}

#[test]
fn zero_attestations_are_rejected() {
    assert_eq!(
        verify(&house(), &wager(), &record(vec![]), &[3u8; 64]),
        Err(VerificationError::Ed25519DataLength)
    );
}

#[test]
fn more_than_one_attestation_is_rejected() {
    let sig = [3u8; 64];
    assert_eq!(
        verify(&house(), &wager(), &record(vec![attestation(sig), attestation(sig)]), &sig),
        Err(VerificationError::Ed25519DataLength)
    );
}

#[test]
fn wrong_signer_is_rejected() {
    let sig = [3u8; 64];
    let mut forged = attestation(sig);
    forged.public_key = Some(Pubkey::new_from_array([8; 32]));
    assert_eq!(
        verify(&house(), &wager(), &record(vec![forged]), &sig),
        Err(VerificationError::Ed25519Pubkey)
    );
    let mut absent = attestation(sig);
    absent.public_key = None;
    assert_eq!(
        verify(&house(), &wager(), &record(vec![absent]), &sig),
        Err(VerificationError::Ed25519Pubkey)
    );
}

#[test]
fn unverifiable_form_is_rejected() {
    let sig = [3u8; 64];
    let mut loose = attestation(sig);
    loose.is_verifiable = false;
    assert_eq!(
        verify(&house(), &wager(), &record(vec![loose]), &sig),
        Err(VerificationError::Ed25519Header)
    );
}

#[test]
fn every_altered_bit_of_the_message_is_rejected() {
    let sig = [3u8; 64];
    let message = wager().to_slice();
    for byte in 0..message.len() {
        for bit in 0..8 {
            let mut altered = message.clone();
            altered[byte] ^= 1 << bit;
            let mut forged = attestation(sig);
            forged.message = Some(altered);
            assert_eq!(
                verify(&house(), &wager(), &record(vec![forged]), &sig),
                Err(VerificationError::Ed25519Message)
            );
        }
    }
}

#[test]
fn shortened_lengthened_or_absent_message_is_rejected() {
    let sig = [3u8; 64];
    let mut short = attestation(sig);
    short.message = Some(wager().to_slice()[..49].to_vec());
    let mut long = attestation(sig);
    let mut bytes = wager().to_slice();
    bytes.push(0);
    long.message = Some(bytes);
    let mut absent = attestation(sig);
    absent.message = None;
    for forged in [short, long, absent] {
        assert_eq!(
            verify(&house(), &wager(), &record(vec![forged]), &sig),
            Err(VerificationError::Ed25519Message)
        );
    }
}

#[test]
fn attestation_of_another_wager_is_rejected() {
    let sig = [3u8; 64];
    let mut other = wager();
    other.amount = 1001;
    assert_eq!(
        verify(&house(), &other, &record(vec![attestation(sig)]), &sig),
        Err(VerificationError::Ed25519Message)
    );
}

#[test]
fn substituted_signature_is_rejected() {
    let sig = [3u8; 64];
    let mut other = sig;
    other[63] = 4;
    assert_eq!(
        verify(&house(), &wager(), &record(vec![attestation(sig)]), &other),
        Err(VerificationError::Ed25519Signature)
    );
    assert_eq!(
        verify(&house(), &wager(), &record(vec![attestation(sig)]), &sig[..63]),
        Err(VerificationError::Ed25519Signature)
    );
    let mut absent = attestation(sig);
    absent.signature = None;
    assert_eq!(
        verify(&house(), &wager(), &record(vec![absent]), &sig),
        Err(VerificationError::Ed25519Signature)
    );
}

#[test]
fn checks_run_in_order() {
    let sig = [3u8; 64];
    // Everything is wrong: the program is reported.
    let mut all_wrong = attestation(sig);
    all_wrong.public_key = None;
    all_wrong.is_verifiable = false;
    all_wrong.message = None;
    all_wrong.signature = None;
    let mut instruction = record(vec![all_wrong.clone(), all_wrong.clone()]);
    instruction.program_id = Pubkey::new_from_array([0; 32]);
    instruction.accounts = 2;
    assert_eq!(
        verify(&house(), &wager(), &instruction, &sig),
        Err(VerificationError::Ed25519Program)
    );
    instruction.program_id = program();
    assert_eq!(
        verify(&house(), &wager(), &instruction, &sig),
        Err(VerificationError::Ed25519Accounts)
    );
    instruction.accounts = 0;
    assert_eq!(
        verify(&house(), &wager(), &instruction, &sig),
        Err(VerificationError::Ed25519DataLength)
    );
    // One attestation: signer, then form, then message, then signature.
    let mut one = all_wrong;
    assert_eq!(
        check_attestation(&house(), &wager(), &one, &sig),
        Err(VerificationError::Ed25519Pubkey)
    );
    one.public_key = Some(house());
    assert_eq!(
        check_attestation(&house(), &wager(), &one, &sig),
        Err(VerificationError::Ed25519Header)
    );
    one.is_verifiable = true;
    assert_eq!(
        check_attestation(&house(), &wager(), &one, &sig),
        Err(VerificationError::Ed25519Message)
    );
    one.message = Some(wager().to_slice());
    assert_eq!(
        check_attestation(&house(), &wager(), &one, &sig),
        Err(VerificationError::Ed25519Signature)
    );
    one.signature = Some(sig);
    assert_eq!(check_attestation(&house(), &wager(), &one, &sig), Ok(()));
}
