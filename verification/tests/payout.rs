use dice_game::payout::payout;
use dice_game::{Bet, DiceError, Outcome, Pubkey, HOUSE_EDGE};

fn wager(amount: u64, roll: u8) -> Bet {
    Bet { player: Pubkey::new_from_array([7u8; 32]), seed: 1, amount, roll, slot: 0, bump: 255 }
}

#[test]
fn house_edge_is_one_and_a_half_percent() {
    assert_eq!(HOUSE_EDGE, 150);
}

#[test]
fn win_pays_the_documented_amount() {
    assert_eq!(wager(1000, 50).settle(10), Ok(Outcome::Win(2010)));
}

#[test]
fn roll_at_or_above_threshold_loses() {
    assert_eq!(wager(1000, 50).settle(75), Ok(Outcome::Lose));
    assert_eq!(wager(1000, 50).settle(50), Ok(Outcome::Lose));
    assert_eq!(wager(1000, 50).settle(49), Ok(Outcome::Win(2010)));
}

#[test]
fn each_division_rounds_down_in_turn() {
    // 1000 * 9850 = 9_850_000; / 49 = 201_020 (remainder 20); / 100 = 2010.
    assert_eq!(payout(1000, 50), Ok(2010));
    // 7 * 9850 = 68_950; / 3 = 22_983; / 100 = 229. Dividing by 300 at once
    // would give the same here; 299 * 9850 / 7 / 100 would not:
    // 2_945_150 / 7 = 420_735; / 100 = 4207.
    assert_eq!(payout(7, 4), Ok(229));
    assert_eq!(payout(299, 8), Ok(4207));
    assert_eq!(payout(1, 2), Ok(98));
    assert_eq!(payout(1, 100), Ok(0));
    assert_eq!(payout(100, 100), Ok(99));
}

#[test]
fn payout_at_the_lowest_winning_threshold() {
    assert_eq!(payout(1000, 2), Ok(98_500));
    assert_eq!(wager(1000, 2).settle(1), Ok(Outcome::Win(98_500)));
    assert_eq!(wager(1000, 2).settle(2), Ok(Outcome::Lose));
}

#[test]
fn threshold_one_never_wins() {
    for roll in 1u8..=100 {
        assert_eq!(wager(1000, 1).settle(roll), Ok(Outcome::Lose));
    }
}

#[test]
fn threshold_one_never_divides() {
    assert_eq!(payout(1000, 1), Err(DiceError::ArithmeticError));
    assert_eq!(payout(1000, 0), Err(DiceError::ArithmeticError));
    assert_eq!(wager(1000, 1).settle(0), Err(DiceError::ArithmeticError));
}

#[test]
fn payout_is_exact_beyond_64_bits() {
    assert_eq!(payout(1u64 << 63, 2), Ok((1u128 << 63) * 9850 / 100));
    assert_eq!(payout(1u64 << 63, 2), Ok(908_502_145_630_195_417_088));
    assert_eq!(wager(1u64 << 63, 2).settle(1), Ok(Outcome::Win(908_502_145_630_195_417_088)));
    assert_eq!(payout(u64::MAX, 2), Ok(u64::MAX as u128 * 9850 / 100));
    assert_eq!(payout(u64::MAX, 100), Ok(u64::MAX as u128 * 9850 / 99 / 100));
    assert_eq!(payout(1u64 << 63, 51), Ok((1u128 << 63) * 9850 / 50 / 100));
}

#[test]
fn stake_up_to_a_ninety_ninth_of_64_bits_pays_within_64_bits() {
    let stake = u64::MAX / 99;
    for threshold in 2u8..=100 {
        let expected = stake as u128 * 9850 / (threshold as u128 - 1) / 100;
        assert_eq!(payout(stake, threshold), Ok(expected));
        assert!(expected <= u64::MAX as u128);
    }
}

#[test]
fn formula_holds_on_a_grid_of_stakes_and_thresholds() {
    for stake in [1u64, 2, 99, 100, 101, 1000, 123_456_789, 1 << 40, 1 << 63, u64::MAX] {
        for threshold in 2u8..=100 {
            let expected = stake as u128 * (10000 - 150) / (threshold as u128 - 1) / 100;
            for roll in 1..threshold {
                assert_eq!(wager(stake, threshold).settle(roll), Ok(Outcome::Win(expected)));
            }
            for roll in threshold..=100 {
                assert_eq!(wager(stake, threshold).settle(roll), Ok(Outcome::Lose));
            }
        }
    }
}
