//! The escrow lifecycle controller: setup collects the vendor's stake and
//! creates the session record, play collects the player's stake, resolves
//! the outcome and settles the pot, delete returns whatever escrow still
//! holds to the vendor and destroys the record.
//!
//! The controller carries the ledger balances of the two fixed
//! participants together with the escrow, so every operation proves the
//! conservation of funds: the sum of vendor balance, player balance and
//! escrow never changes, and every failure leaves the whole state
//! untouched.

use vstd::prelude::*;

use crate::errors::DiceRollError;
use crate::resolver::spec_resolve;
use crate::rng::random_u8;
use crate::session::DiceRoll;
use crate::session::DiceRollResult;

verus! {

/// One wager world: the ledger balances of the two fixed participants,
/// the funds held in escrow, and the live session record, if any.
///
/// Records for different pairs are independent, so one controller models
/// everything a single (vendor, player) pair can observe.
pub struct EscrowController {
    /// Account id of the vendor, who initiates setup and delete.
    pub vendor: u64,
    /// Account id of the player, who joins by playing.
    pub player: u64,
    /// The vendor's ledger balance.
    pub vendor_balance: u64,
    /// The player's ledger balance.
    pub player_balance: u64,
    /// Funds owned by the live session; zero when no record exists.
    pub escrow_balance: u64,
    /// The live session record between the pair, if one exists.
    pub record: Option<DiceRoll>,
}

impl EscrowController {
    /// The sum of all funds in this world: both ledger balances plus the
    /// escrow. Every operation preserves it.
    pub open spec fn total_funds(&self) -> int {
        self.vendor_balance + self.player_balance + self.escrow_balance
    }

    /// Well-formedness: the participants are distinct accounts, the total
    /// funds fit the ledger's word size, and the escrow holds exactly what
    /// the record's state owes it — nothing without a record, one stake
    /// while the record awaits play, the full pot after a resolved draw,
    /// and nothing once a winner has been paid.
    pub open spec fn wf(&self) -> bool {
        &&& self.vendor != self.player
        &&& self.total_funds() <= u64::MAX
        &&& match self.record {
            None => self.escrow_balance == 0,
            Some(rec) => {
                &&& rec.wf()
                &&& rec.players[0] == self.vendor
                &&& rec.players[1] == self.player
                &&& !rec.resolved ==> self.escrow_balance == rec.bet_amount
                &&& rec.resolved && rec.state is Draw ==> self.escrow_balance == 2
                    * rec.bet_amount
                &&& rec.resolved && rec.state is Finished ==> self.escrow_balance == 0
            },
        }
    }

    /// A fresh world: two distinct accounts with their opening balances,
    /// an empty escrow and no session.
    pub fn new(vendor: u64, player: u64, vendor_balance: u64, player_balance: u64) -> (r:
        EscrowController)
        requires
            vendor != player,
            vendor_balance + player_balance <= u64::MAX,
        ensures
            r.wf(),
            r.vendor == vendor,
            r.player == player,
            r.vendor_balance == vendor_balance,
            r.player_balance == player_balance,
            r.escrow_balance == 0,
            r.record is None,
    {
        EscrowController {
            vendor,
            player,
            vendor_balance,
            player_balance,
            escrow_balance: 0,
            record: None,
        }
    }
}

/// The reason setup must refuse, if any, checked in this order: a live
/// record already exists, the stake is zero, the die is out of range, or
/// the vendor cannot cover the stake.
pub open spec fn setup_error(
    pre: EscrowController,
    bet_amount: u64,
    dice_side_count: u8,
) -> Option<DiceRollError> {
    if pre.record is Some {
        Some(DiceRollError::DuplicateSession)
    } else if bet_amount == 0 {
        Some(DiceRollError::BetTooSmall)
    } else if dice_side_count == 0 || dice_side_count == 255 {
        Some(DiceRollError::InvalidSideCount)
    } else if pre.vendor_balance < bet_amount {
        Some(DiceRollError::InsufficientFunds)
    } else {
        None
    }
}

/// The reason play must refuse, if any, checked in this order: no record
/// exists, the record is already resolved, or the player cannot cover the
/// stake.
pub open spec fn play_error(pre: EscrowController) -> Option<DiceRollError> {
    match pre.record {
        None => Some(DiceRollError::NotFound),
        Some(rec) => if rec.resolved {
            Some(DiceRollError::AlreadyResolved)
        } else if pre.player_balance < rec.bet_amount {
            Some(DiceRollError::InsufficientFunds)
        } else {
            None
        },
    }
}

/// What a successful play leaves behind, given the two raw draws: the
/// player's stake moved into escrow, the outcome computed from the draws
/// by the resolver, the record resolved exactly once, and the pot either
/// retained in escrow (draw) or paid in full to the winner.
pub open spec fn play_ok_post(
    pre: EscrowController,
    post: EscrowController,
    vendor_roll: u8,
    player_roll: u8,
    outcome: DiceRollResult,
) -> bool {
    &&& pre.record matches Some(rec)
    &&& !rec.resolved
    &&& pre.player_balance >= rec.bet_amount
    &&& outcome == spec_resolve(
        rec.dice_side_count,
        vendor_roll,
        player_roll,
        pre.vendor,
        pre.player,
    )
    &&& post.record matches Some(resolved_rec)
    &&& resolved_rec.same_identity(&rec)
    &&& resolved_rec.resolved
    &&& resolved_rec.state == outcome
    &&& match outcome {
        DiceRollResult::Draw => {
            &&& post.escrow_balance == 2 * rec.bet_amount
            &&& post.vendor_balance == pre.vendor_balance
            &&& post.player_balance == pre.player_balance - rec.bet_amount
        },
        DiceRollResult::Finished { winner } => {
            &&& post.escrow_balance == 0
            &&& (winner == pre.vendor || winner == pre.player)
            &&& winner == pre.vendor ==> {
                &&& post.vendor_balance == pre.vendor_balance + 2 * rec.bet_amount
                &&& post.player_balance == pre.player_balance - rec.bet_amount
            }
            &&& winner == pre.player ==> {
                &&& post.vendor_balance == pre.vendor_balance
                &&& post.player_balance == pre.player_balance + rec.bet_amount
            }
        },
    }
}

/// Creates the session record and collects the vendor's stake into
/// escrow.
///
/// Fails with `DuplicateSession` if a live record already exists,
/// `BetTooSmall` if the stake is zero, `InvalidSideCount` if the die is
/// out of range, and `InsufficientFunds` if the vendor cannot cover the
/// stake; every failure leaves the state untouched. Total funds are
/// conserved either way.
pub fn setup(
    ctl: &mut EscrowController,
    bet_amount: u64,
    dice_side_count: u8,
    vendor_seed: i64,
) -> (r: Result<(), DiceRollError>)
    requires
        old(ctl).wf(),
    ensures
        final(ctl).wf(),
        final(ctl).vendor == old(ctl).vendor,
        final(ctl).player == old(ctl).player,
        final(ctl).total_funds() == old(ctl).total_funds(),
        match setup_error(*old(ctl), bet_amount, dice_side_count) {
            Some(e) => r == Err::<(), DiceRollError>(e) && *final(ctl) == *old(ctl),
            None => {
                &&& r == Ok::<(), DiceRollError>(())
                &&& final(ctl).vendor_balance == old(ctl).vendor_balance - bet_amount
                &&& final(ctl).player_balance == old(ctl).player_balance
                &&& final(ctl).escrow_balance == bet_amount
                &&& final(ctl).record matches Some(rec)
                &&& rec.players[0] == old(ctl).vendor
                &&& rec.players[1] == old(ctl).player
                &&& rec.vendor_seed == vendor_seed
                &&& rec.state is Draw
                &&& !rec.resolved
                &&& rec.bet_amount == bet_amount
                &&& rec.dice_side_count == dice_side_count
            },
        },
{
    if ctl.record.is_some() {
        return Err(DiceRollError::DuplicateSession);
    }
    if bet_amount == 0 {
        return Err(DiceRollError::BetTooSmall);
    }
    if dice_side_count == 0 || dice_side_count == 255 {
        return Err(DiceRollError::InvalidSideCount);
    }
    if ctl.vendor_balance < bet_amount {
        return Err(DiceRollError::InsufficientFunds);
    }
    ctl.vendor_balance = ctl.vendor_balance - bet_amount;
    ctl.escrow_balance = bet_amount;
    let vendor_id: u64 = ctl.vendor;
    let player_id: u64 = ctl.player;
    ctl.record = Some(
        DiceRoll::new(vendor_id, player_id, bet_amount, dice_side_count, vendor_seed),
    );
    Ok(())
}

/// Collects the player's stake, resolves the outcome from the two raw
/// draws, settles the pot and records the result — atomically: any
/// failure leaves the state untouched, and a record is settled at most
/// once.
///
/// Fails with `NotFound` if no record exists, `AlreadyResolved` if the
/// record has already been resolved, and `InsufficientFunds` if the
/// player cannot cover the stake. Total funds are conserved either way.
pub fn play_with_rolls(ctl: &mut EscrowController, vendor_roll: u8, player_roll: u8) -> (r:
    Result<DiceRollResult, DiceRollError>)
    requires
        old(ctl).wf(),
    ensures
        final(ctl).wf(),
        final(ctl).vendor == old(ctl).vendor,
        final(ctl).player == old(ctl).player,
        final(ctl).total_funds() == old(ctl).total_funds(),
        r is Ok <==> play_error(*old(ctl)) is None,
        r matches Err(e) ==> Some(e) == play_error(*old(ctl)) && *final(ctl) == *old(ctl),
        r matches Ok(outcome) ==> play_ok_post(
            *old(ctl),
            *final(ctl),
            vendor_roll,
            player_roll,
            outcome,
        ),
{
    if ctl.record.is_none() {
        return Err(DiceRollError::NotFound);
    }
    let mut rec = ctl.record.unwrap();
    if rec.resolved {
        return Err(DiceRollError::AlreadyResolved);
    }
    if ctl.player_balance < rec.bet_amount {
        return Err(DiceRollError::InsufficientFunds);
    }
    // Collect the player's stake: the escrow now holds the full pot.
    ctl.player_balance = ctl.player_balance - rec.bet_amount;
    ctl.escrow_balance = ctl.escrow_balance + rec.bet_amount;
    let outcome = rec.play(vendor_roll, player_roll);
    // Settle: a draw keeps the pot escrowed for delete to reclaim; a win
    // pays the whole pot to the winner in one transfer.
    match outcome {
        DiceRollResult::Draw => {},
        DiceRollResult::Finished { winner } => {
            let pot: u64 = ctl.escrow_balance;
            ctl.escrow_balance = 0;
            if winner == ctl.vendor {
                ctl.vendor_balance = ctl.vendor_balance + pot;
            } else {
                ctl.player_balance = ctl.player_balance + pot;
            }
        },
    }
    ctl.record = Some(rec);
    Ok(outcome)
}

/// Runs one complete play against the thread-local randomness source.
///
/// Whether play succeeds, and with which error it fails, depends only on
/// the state, never on the draws; whatever the source returns, a success
/// is a `play_with_rolls` outcome for some pair of draws, so conservation,
/// the escrow discipline and single resolution hold for every outcome.
pub fn play(ctl: &mut EscrowController) -> (r: Result<DiceRollResult, DiceRollError>)
    requires
        old(ctl).wf(),
    ensures
        final(ctl).wf(),
        final(ctl).vendor == old(ctl).vendor,
        final(ctl).player == old(ctl).player,
        final(ctl).total_funds() == old(ctl).total_funds(),
        r is Ok <==> play_error(*old(ctl)) is None,
        r matches Err(e) ==> Some(e) == play_error(*old(ctl)) && *final(ctl) == *old(ctl),
        r matches Ok(outcome) ==> exists|vendor_roll: u8, player_roll: u8|
            play_ok_post(*old(ctl), *final(ctl), vendor_roll, player_roll, outcome),
{
    let vendor_roll = random_u8();
    let player_roll = random_u8();
    play_with_rolls(ctl, vendor_roll, player_roll)
}

/// Returns whatever the escrow still holds to the vendor and destroys the
/// session record: the full pot after a resolved draw, one stake after an
/// abandoned setup, nothing after a finished session.
///
/// Fails with `NotFound`, changing nothing, if no record exists. Total
/// funds are conserved either way.
pub fn delete(ctl: &mut EscrowController) -> (r: Result<(), DiceRollError>)
    requires
        old(ctl).wf(),
    ensures
        final(ctl).wf(),
        final(ctl).vendor == old(ctl).vendor,
        final(ctl).player == old(ctl).player,
        final(ctl).total_funds() == old(ctl).total_funds(),
        r is Ok <==> old(ctl).record is Some,
        r is Ok ==> r == Ok::<(), DiceRollError>(()),
        r is Ok ==> {
            &&& final(ctl).record is None
            &&& final(ctl).escrow_balance == 0
            &&& final(ctl).vendor_balance == old(ctl).vendor_balance + old(ctl).escrow_balance
            &&& final(ctl).player_balance == old(ctl).player_balance
        },
        r is Err ==> r == Err::<(), DiceRollError>(DiceRollError::NotFound) && *final(ctl)
            == *old(ctl),
{
    if ctl.record.is_none() {
        return Err(DiceRollError::NotFound);
    }
    ctl.vendor_balance = ctl.vendor_balance + ctl.escrow_balance;
    ctl.escrow_balance = 0;
    ctl.record = None;
    Ok(())
}

/// What delete reclaims is fixed by the resolved state: after a resolved
/// draw the escrow holds exactly twice the stake, and after a finished
/// session it holds exactly zero.
pub proof fn lemma_escrow_after_resolution(ctl: EscrowController, rec: DiceRoll)
    requires
        ctl.wf(),
        ctl.record == Some(rec),
        rec.resolved,
    ensures
        rec.state is Draw ==> ctl.escrow_balance == 2 * rec.bet_amount,
        rec.state is Finished ==> ctl.escrow_balance == 0,
{
}

} // verus!
