//! The session record: the persistent state of one wager between a vendor
//! and a player, plus the single mutation it ever undergoes.
//!
//! Identities are opaque 64-bit account ids. A record is created by setup,
//! resolved at most once by play, and destroyed by delete; no other
//! mutation path exists.

use vstd::prelude::*;

use crate::resolver::resolve;
use crate::resolver::spec_resolve;

verus! {

/// The outcome of one wager: a tie, or a win for the participant with the
/// given account id.
#[derive(Clone, Copy, Debug, PartialEq, Eq, Structural)]
pub enum DiceRollResult {
    Draw,
    Finished { winner: u64 },
}

impl Default for DiceRollResult {
    /// A fresh record starts in the draw state, not yet resolved.
    fn default() -> (r: Self)
        ensures
            r == DiceRollResult::Draw,
    {
        DiceRollResult::Draw
    }
}

/// The persistent record of one wager session.
#[derive(Clone, Copy, Debug, PartialEq, Eq)]
pub struct DiceRoll {
    /// The two participants: index 0 is the vendor, index 1 the player.
    /// Fixed at creation; never reordered.
    pub players: [u64; 2],
    /// Opaque commitment value supplied by the vendor at creation. Stored
    /// for auditability; not consumed by outcome resolution.
    pub vendor_seed: i64,
    /// The current outcome; meaningful only once `resolved` is set.
    pub state: DiceRollResult,
    /// Whether play has already resolved this record. Guards against a
    /// second resolution.
    pub resolved: bool,
    /// The stake each participant must contribute; fixed at creation.
    pub bet_amount: u64,
    /// Faces per die are `0..=dice_side_count`; valid range 1..=254.
    pub dice_side_count: u8,
}

impl DiceRoll {
    /// A record is well formed when its stake is positive, its side count
    /// is in range, an unresolved record still shows the draw state, and a
    /// finished record names one of its own participants as winner.
    pub open spec fn wf(&self) -> bool {
        &&& self.bet_amount > 0
        &&& 1 <= self.dice_side_count <= 254
        &&& !self.resolved ==> self.state == DiceRollResult::Draw
        &&& self.state matches DiceRollResult::Finished { winner }
            ==> winner == self.players[0] || winner == self.players[1]
    }

    /// The fields fixed at creation agree between two records.
    pub open spec fn same_identity(&self, other: &DiceRoll) -> bool {
        &&& self.players[0] == other.players[0]
        &&& self.players[1] == other.players[1]
        &&& self.vendor_seed == other.vendor_seed
        &&& self.bet_amount == other.bet_amount
        &&& self.dice_side_count == other.dice_side_count
    }

    /// Creates an unresolved record for the given pair with the given
    /// stake and die.
    pub fn new(
        vendor: u64,
        player: u64,
        bet_amount: u64,
        dice_side_count: u8,
        vendor_seed: i64,
    ) -> (r: DiceRoll)
        requires
            bet_amount > 0,
            1 <= dice_side_count <= 254,
        ensures
            r.players[0] == vendor,
            r.players[1] == player,
            r.vendor_seed == vendor_seed,
            r.state == DiceRollResult::Draw,
            !r.resolved,
            r.bet_amount == bet_amount,
            r.dice_side_count == dice_side_count,
            r.wf(),
    {
        DiceRoll {
            players: [vendor, player],
            vendor_seed,
            state: DiceRollResult::Draw,
            resolved: false,
            bet_amount,
            dice_side_count,
        }
    }

    /// Records a resolved outcome. Only the lifecycle controller calls
    /// this, and only once per record.
    pub(crate) fn apply_outcome(&mut self, outcome: DiceRollResult)
        requires
            !old(self).resolved,
        ensures
            final(self).state == outcome,
            final(self).resolved,
            final(self).same_identity(old(self)),
    {
        self.state = outcome;
        self.resolved = true;
    }

    /// Resolves this record from two raw draws: reduces each draw to a
    /// face, compares the faces, stores the outcome and returns it.
    pub fn play(&mut self, vendor_roll: u8, player_roll: u8) -> (r: DiceRollResult)
        requires
            old(self).wf(),
            !old(self).resolved,
        ensures
            r == spec_resolve(
                old(self).dice_side_count,
                vendor_roll,
                player_roll,
                old(self).players[0],
                old(self).players[1],
            ),
            final(self).state == r,
            final(self).resolved,
            final(self).same_identity(old(self)),
            final(self).wf(),
    {
        let vendor_id: u64 = self.players[0];
        let player_id: u64 = self.players[1];
        let outcome = resolve(
            self.dice_side_count,
            vendor_roll,
            player_roll,
            vendor_id,
            player_id,
        );
        self.apply_outcome(outcome);
        outcome
    }
}

} // verus!
