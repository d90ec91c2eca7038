use vstd::prelude::*;

verus! {

/// Every way a wager-session operation can fail.
#[derive(Clone, Copy, Debug, PartialEq, Eq, Structural)]
pub enum DiceRollError {
    /// The stake offered at setup was zero.
    BetTooSmall,
    /// The requested die has no valid face count (0, or 255, whose
    /// modulus `side_count + 1` would not fit in eight bits).
    InvalidSideCount,
    /// Setup was attempted while a live session already exists for the pair.
    DuplicateSession,
    /// A party cannot cover its stake at the time of the debit.
    InsufficientFunds,
    /// Play or delete was attempted with no session record present.
    NotFound,
    /// Play was attempted on a session that has already been resolved.
    AlreadyResolved,
    /// Payout was attempted while the escrow did not hold the full pot;
    /// unreachable under the accounting this library proves.
    SettlementFailure,
}

} // verus!
