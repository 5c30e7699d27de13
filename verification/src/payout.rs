//! The payout calculator: who wins, and how much.

use crate::errors::DiceError;
use crate::state::Bet;
use vstd::prelude::*;

verus! {

/// The house edge in basis points: 150 is 1.5%.
pub const HOUSE_EDGE: u16 = 150;

/// How a wager ends once the roll is known.
#[derive(Clone, Copy, Debug, PartialEq, Eq, Structural)]
pub enum Outcome {
    /// The roll did not fall below the threshold; the stake stays in the
    /// vault.
    Lose,
    /// The roll fell below the threshold; the vault owes this many lamports.
    /// The amount is held in 128 bits, in which every payout fits.
    Win(u128),
}

/// The player wins when the roll falls strictly below the threshold.
pub open spec fn wins(threshold: u8, roll: u8) -> bool {
    threshold > roll
}

/// What a winning wager pays: the stake, less the house edge, scaled up by
/// the odds that the threshold implies. Each division rounds down.
pub open spec fn payout_of(stake: u64, threshold: u8) -> int
    recommends
        threshold >= 2,
{
    stake * (10000 - HOUSE_EDGE) / (threshold - 1) / 100
}

/// What `payout` returns: the payout, at every threshold that leaves
/// something to divide by.
pub open spec fn payout_result(stake: u64, threshold: u8) -> Result<u128, DiceError> {
    if threshold < 2 {
        Err(DiceError::ArithmeticError)
    } else {
        Ok(payout_of(stake, threshold) as u128)
    }
}

/// How a wager ends on a given roll. The win condition is decided first;
/// nothing is divided unless the wager has won.
pub open spec fn settlement(bet: Bet, roll: u8) -> Result<Outcome, DiceError> {
    if !wins(bet.roll, roll) {
        Ok(Outcome::Lose)
    } else {
        match payout_result(bet.amount, bet.roll) {
            Ok(amount) => Ok(Outcome::Win(amount)),
            Err(e) => Err(e),
        }
    }
}

/// The payout of a winning wager, computed in 128 bits with every step
/// checked. A threshold below 2 leaves nothing to divide by and is refused;
/// nothing else fails, whatever the stake.
pub fn payout(stake: u64, threshold: u8) -> (r: Result<u128, DiceError>)
    ensures
        r == payout_result(stake, threshold),
{
    if threshold < 2 {
        return Err(DiceError::ArithmeticError);
    }
    let keep: u128 = 10000 - (HOUSE_EDGE as u128);
    let odds: u128 = (threshold as u128) - 1;
    proof {
        lemma_payout_fits(stake, threshold);
    }
    let scaled: u128 = match (stake as u128).checked_mul(keep) {
        Some(v) => v,
        None => { return Err(DiceError::ArithmeticError); },
    };
    let shared: u128 = match scaled.checked_div(odds) {
        Some(v) => v,
        None => { return Err(DiceError::ArithmeticError); },
    };
    match shared.checked_div(100) {
        Some(amount) => Ok(amount),
        None => Err(DiceError::ArithmeticError),
    }
}

/// No step of the payout leaves 128 bits, whatever the stake: the stake
/// less the house edge fits, and the divisions only make it smaller. A
/// stake of at most `u64::MAX / 99` pays an amount that fits 64 bits at
/// every threshold from 2 up.
pub proof fn lemma_payout_fits(stake: u64, threshold: u8)
    requires
        threshold >= 2,
    ensures
        stake * (10000 - HOUSE_EDGE) <= u128::MAX,
        0 <= payout_of(stake, threshold) <= stake * (10000 - HOUSE_EDGE) / 100 <= u128::MAX,
        stake <= u64::MAX / 99 ==> payout_of(stake, threshold) <= u64::MAX,
{
    let scaled: int = stake * (10000 - HOUSE_EDGE);
    let odds: int = threshold - 1;
    assert(scaled == stake * 9850);
    assert(0 <= scaled / odds <= scaled) by (nonlinear_arith)
        requires
            scaled >= 0,
            odds >= 1,
    ;
}

/// A winning wager is owed exactly the stake, less the house edge, divided
/// by the threshold less one and then by 100, each division rounding down.
/// This holds at every threshold from 2 to 100 and for every stake; the
/// amount is computed without overflow.
pub proof fn lemma_win_pays_formula(bet: Bet, roll: u8)
    requires
        2 <= bet.roll <= 100,
        bet.amount > 0,
        roll < bet.roll,
    ensures
        payout_of(bet.amount, bet.roll) == bet.amount * (10000 - 150) / (bet.roll - 1) / 100,
        0 <= payout_of(bet.amount, bet.roll) <= u128::MAX,
        settlement(bet, roll) == Ok::<Outcome, DiceError>(
            Outcome::Win(payout_of(bet.amount, bet.roll) as u128),
        ),
{
    lemma_payout_fits(bet.amount, bet.roll);
}

/// A wager at threshold 1 loses on every roll from 1 up: no roll falls
/// below 1, so its payout is never computed.
pub proof fn lemma_threshold_one_never_wins(bet: Bet, roll: u8)
    requires
        bet.roll == 1,
        roll >= 1,
    ensures
        !wins(bet.roll, roll),
        settlement(bet, roll) == Ok::<Outcome, DiceError>(Outcome::Lose),
{
}

/// Whatever the threshold and the stake, a roll at or above the threshold
/// loses, and nothing is computed.
pub proof fn lemma_roll_at_or_above_threshold_loses(bet: Bet, roll: u8)
    requires
        roll >= bet.roll,
    ensures
        settlement(bet, roll) == Ok::<Outcome, DiceError>(Outcome::Lose),
{
}

impl Bet {
    /// Decides the wager on a roll: a loss, or a win with its payout.
    pub fn settle(&self, roll: u8) -> (r: Result<Outcome, DiceError>)
        ensures
            r == settlement(*self, roll),
    {
        if self.roll > roll {
            match payout(self.amount, self.roll) {
                Ok(amount) => Ok(Outcome::Win(amount)),
                Err(e) => Err(e),
            }
        } else {
            Ok(Outcome::Lose)
        }
    }
}

} // verus!
