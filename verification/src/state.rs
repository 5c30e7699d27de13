//! The wager record and its serialized form.

use crate::bytes::{
    extend_le_u64, le_bytes, lemma_le_bytes_injective, lemma_le_bytes_len, lemma_pow256_values,
};
use crate::pubkey::Pubkey;
use vstd::prelude::*;

verus! {

/// The lowest threshold a player may choose.
pub const MIN_THRESHOLD: u8 = 1;

/// The highest threshold a player may choose.
pub const MAX_THRESHOLD: u8 = 100;

/// A wager: a stake placed against a threshold. The player wins when the
/// roll falls strictly below `roll`, the chosen threshold.
#[derive(Clone, Copy, Debug, PartialEq, Eq)]
pub struct Bet {
    /// Who staked the funds; the only party a payout or refund goes to.
    pub player: Pubkey,
    /// Chosen by the player; tells this wager from the player's others.
    pub seed: u64,
    /// The stake in lamports, fixed for the wager's lifetime.
    pub amount: u64,
    /// The threshold, between 1 and 100.
    pub roll: u8,
    /// The slot at which the wager was placed.
    pub slot: u64,
    /// The bump with which the record's address is derived again.
    pub bump: u8,
}

/// Where a wager stands in its life. It starts `Open`; `Resolved` and
/// `Refunded` are final.
#[derive(Clone, Copy, Debug, PartialEq, Eq, Structural)]
pub enum WagerState {
    /// Placed and funded, waiting for the house's attestation.
    Open,
    /// Settled on an attested roll; the record is closed.
    Resolved,
    /// The stake went back to the player; the record is closed.
    Refunded,
}

/// A wager record as the ledger stores it.
#[derive(Clone, Copy, Debug, PartialEq, Eq)]
pub struct BetAccount {
    /// The wager.
    pub bet: Bet,
    /// Where the wager stands.
    pub state: WagerState,
    /// The lamports that the record itself holds; they go to the player
    /// when the record is closed.
    pub lamports: u64,
}

impl BetAccount {
    /// The record once it is closed in `state`: it holds no lamports any
    /// more.
    pub open spec fn closed(self, state: WagerState) -> BetAccount {
        BetAccount { state, lamports: 0, ..self }
    }
}

/// A message has 50 bytes: 32 of the player, 8 of the seed, 8 of the
/// stake, one of the threshold and one of the bump.
pub proof fn lemma_message_layout(bet: Bet)
    ensures
        bet.message().len() == 50,
        bet.message().subrange(0, 32) == bet.player@,
        bet.message().subrange(32, 40) == le_bytes(bet.seed as nat, 8),
        bet.message().subrange(40, 48) == le_bytes(bet.amount as nat, 8),
        bet.message()[48] == bet.roll,
        bet.message()[49] == bet.bump,
{
    lemma_le_bytes_len(bet.seed as nat, 8);
    lemma_le_bytes_len(bet.amount as nat, 8);
    assert(bet.message().subrange(0, 32) =~= bet.player@);
    assert(bet.message().subrange(32, 40) =~= le_bytes(bet.seed as nat, 8));
    assert(bet.message().subrange(40, 48) =~= le_bytes(bet.amount as nat, 8));
}

/// The message binds the wager: two wagers with the same message have the
/// same player, seed, stake, threshold and bump. Changing any of these
/// changes the message.
pub proof fn lemma_message_binds_wager(first: Bet, second: Bet)
    requires
        first.message() == second.message(),
    ensures
        first.player@ == second.player@,
        first.seed == second.seed,
        first.amount == second.amount,
        first.roll == second.roll,
        first.bump == second.bump,
{
    lemma_message_layout(first);
    lemma_message_layout(second);
    lemma_pow256_values();
    lemma_le_bytes_injective(first.seed as nat, second.seed as nat, 8);
    lemma_le_bytes_injective(first.amount as nat, second.amount as nat, 8);
}

impl Bet {
    /// The bytes that a stored record occupies.
    pub const LEN: usize = 8 + 32 + 8 * 3 + 1 * 2;

    /// A record that creation accepts: a stake, and a threshold in range.
    pub open spec fn wf(&self) -> bool {
        &&& self.amount > 0
        &&& MIN_THRESHOLD <= self.roll <= MAX_THRESHOLD
    }

    /// The message that the house signs: player, seed, stake, threshold and
    /// bump, in this order, integers in fixed-width little-endian form.
    pub open spec fn message(&self) -> Seq<u8> {
        self.player@ + le_bytes(self.seed as nat, 8) + le_bytes(self.amount as nat, 8)
            + seq![self.roll] + seq![self.bump]
    }

    /// Serializes the wager into the message that the house signs.
    pub fn to_slice(&self) -> (s: Vec<u8>)
        ensures
            s@ == self.message(),
    {
        let key: [u8; 32] = self.player.to_bytes();
        let mut s: Vec<u8> = Vec::new();
        let mut i: usize = 0;
        while i < 32
            invariant
                i <= 32,
                key@ == self.player@,
                s@ == key@.subrange(0, i as int),
            decreases 32 - i,
        {
            s.push(key[i]);
            assert(s@ =~= key@.subrange(0, i + 1));
            i = i + 1;
        }
        assert(s@ =~= self.player@);
        extend_le_u64(&mut s, self.seed);
        extend_le_u64(&mut s, self.amount);
        s.push(self.roll);
        s.push(self.bump);
        assert(s@ =~= self.message());
        s
    }
}

} // verus!
