//! The outcome resolver: a pure function from a side count and two raw
//! draws to a wager outcome.
//!
//! Each raw draw is reduced modulo `side_count + 1`, so each die shows a
//! face in `0..=side_count` (the modulus is deliberately `side_count + 1`:
//! the engine has always rolled one more face than the name suggests, and
//! callers depend on that exact behaviour). Equal faces are a draw; the
//! strictly higher face wins the pot.

use vstd::prelude::*;

use crate::session::DiceRollResult;

verus! {

/// The face a raw draw shows on a die with `side_count + 1` faces.
pub open spec fn face_of(roll: u8, side_count: u8) -> int {
    (roll as int) % (side_count as int + 1)
}

/// The outcome of comparing the vendor's face against the player's face:
/// equal faces are a draw, otherwise the strictly higher face wins.
pub open spec fn spec_resolve(
    side_count: u8,
    vendor_roll: u8,
    player_roll: u8,
    vendor: u64,
    player: u64,
) -> DiceRollResult {
    if face_of(vendor_roll, side_count) == face_of(player_roll, side_count) {
        DiceRollResult::Draw
    } else if face_of(player_roll, side_count) > face_of(vendor_roll, side_count) {
        DiceRollResult::Finished { winner: player }
    } else {
        DiceRollResult::Finished { winner: vendor }
    }
}

/// Computes the wager outcome for one pair of raw draws.
///
/// The result is a pure function of the arguments: same side count, draws
/// and identities always yield the same outcome.
pub fn resolve(
    side_count: u8,
    vendor_roll: u8,
    player_roll: u8,
    vendor: u64,
    player: u64,
) -> (r: DiceRollResult)
    requires
        1 <= side_count <= 254,
    ensures
        r == spec_resolve(side_count, vendor_roll, player_roll, vendor, player),
{
    let modulus: u8 = side_count + 1;
    let vendor_face: u8 = vendor_roll % modulus;
    let player_face: u8 = player_roll % modulus;
    if vendor_face == player_face {
        DiceRollResult::Draw
    } else if player_face > vendor_face {
        DiceRollResult::Finished { winner: player }
    } else {
        DiceRollResult::Finished { winner: vendor }
    }
}

/// Every die face lies in `0..=side_count` inclusive: the resolver never
/// compares a value outside the die.
pub proof fn lemma_face_in_range(roll: u8, side_count: u8)
    requires
        side_count <= 254,
    ensures
        0 <= face_of(roll, side_count) <= side_count,
{
}

/// Determinism: any two outcomes computed from the same side count, the
/// same two draws and the same two identities are equal.
pub proof fn lemma_resolve_deterministic(
    side_count: u8,
    vendor_roll: u8,
    player_roll: u8,
    vendor: u64,
    player: u64,
    first: DiceRollResult,
    second: DiceRollResult,
)
    requires
        first == spec_resolve(side_count, vendor_roll, player_roll, vendor, player),
        second == spec_resolve(side_count, vendor_roll, player_roll, vendor, player),
    ensures
        first == second,
{
}

/// The outcome is a draw exactly when the two faces agree; in particular a
/// die with `side_count + 1` faces draws on exactly one face pairing per
/// vendor face.
pub proof fn lemma_draw_iff_equal_faces(
    side_count: u8,
    vendor_roll: u8,
    player_roll: u8,
    vendor: u64,
    player: u64,
)
    ensures
        spec_resolve(side_count, vendor_roll, player_roll, vendor, player)
            == DiceRollResult::Draw
            <==> face_of(vendor_roll, side_count) == face_of(player_roll, side_count),
{
}

/// Neither seat is favoured: swapping the two draws turns a vendor win
/// into a player win and conversely, and maps a draw to a draw. The
/// non-draw outcomes therefore pair off evenly between the two parties.
pub proof fn lemma_resolve_symmetric(
    side_count: u8,
    roll_a: u8,
    roll_b: u8,
    vendor: u64,
    player: u64,
)
    requires
        vendor != player,
    ensures
        spec_resolve(side_count, roll_a, roll_b, vendor, player) == DiceRollResult::Draw
            <==> spec_resolve(side_count, roll_b, roll_a, vendor, player)
            == DiceRollResult::Draw,
        spec_resolve(side_count, roll_a, roll_b, vendor, player)
            == (DiceRollResult::Finished { winner: vendor })
            <==> spec_resolve(side_count, roll_b, roll_a, vendor, player)
            == (DiceRollResult::Finished { winner: player }),
{
}

} // verus!
