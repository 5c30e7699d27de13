use dice_game::{Bet, Pubkey};

fn sample() -> Bet {
    let mut key = [0u8; 32];
    for (i, byte) in key.iter_mut().enumerate() {
        *byte = i as u8;
    }
    Bet {
        player: Pubkey::new_from_array(key),
        seed: 0x1122_3344_5566_7788,
        amount: 1000,
        roll: 50,
        slot: 123_456,
        bump: 254,
    }
}

#[test]
fn message_is_player_seed_stake_threshold_bump() {
    let mut expected: Vec<u8> = (0u8..32).collect();
    expected.extend_from_slice(&[0x88, 0x77, 0x66, 0x55, 0x44, 0x33, 0x22, 0x11]);
    expected.extend_from_slice(&[0xe8, 0x03, 0, 0, 0, 0, 0, 0]);
    expected.push(50);
    expected.push(254);
    assert_eq!(sample().to_slice(), expected);
}

#[test]
fn message_has_fifty_bytes() {
    assert_eq!(sample().to_slice().len(), 50);
}

#[test]
fn message_does_not_depend_on_the_slot() {
    let mut later = sample();
    later.slot = 999_999;
    assert_eq!(later.to_slice(), sample().to_slice());
}

#[test]
fn every_signed_field_changes_the_message() {
    let base = sample().to_slice();
    let mut other = sample();
    other.player = Pubkey::new_from_array([9; 32]);
    assert_ne!(other.to_slice(), base);
    let mut other = sample();
    other.seed += 1;
    assert_ne!(other.to_slice(), base);
    let mut other = sample();
    other.amount += 1;
    assert_ne!(other.to_slice(), base);
    let mut other = sample();
    other.roll += 1;
    assert_ne!(other.to_slice(), base);
    let mut other = sample();
    other.bump -= 1;
    assert_ne!(other.to_slice(), base);
}

#[test]
fn stored_record_size() {
    assert_eq!(Bet::LEN, 66);
}
