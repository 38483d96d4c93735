//! Record types of the lottery protocol and their well-formedness.
//!
//! The ledger substrate that persists these records, moves funds between
//! them and authorizes callers is outside this library; every operation
//! here works on plain record values and returns what the caller must
//! apply to the ledger.

use vstd::prelude::*;

verus! {

/// A participant or administrator identity, as an opaque numeric id.
/// The logic only ever compares identities for equality.
pub type Identity = u64;

/// Process-wide singleton: admin identity, current round id, cumulative
/// prize-seed pool and aggregate unclaimed-prize liability.
#[derive(Clone, Copy, Debug, PartialEq, Eq)]
#[verifier::ext_equal]
pub struct ProtocolState {
    pub admin: Identity,
    pub validator: Identity,
    pub current_round: u64,
    /// Cumulative amount moved into the prize pool by `seed_prize`.
    pub prize_seed_amount: u64,
    /// Sum of `prize_amount` over issued, unclaimed claim tickets.
    pub total_unclaimed_prizes: u64,
}

/// One record per round id: epoch counter, timing anchors, ticket totals,
/// staked total, winner and completion flags. Times are in milliseconds.
#[derive(Clone, Copy, Debug, PartialEq, Eq)]
#[verifier::ext_equal]
pub struct RoundState {
    pub round_id: u64,
    /// Phase within the round: 1 and 2 accept deposits, 3 is closed.
    pub epoch_in_round: u8,
    /// When the round started (milliseconds).
    pub start_epoch: u64,
    /// When the round completed (milliseconds); 0 until completion.
    pub end_epoch: u64,
    /// Total deposited this round.
    pub total_staked_lamports: u64,
    /// Prize allocated for this round, fixed at finalization.
    pub total_prize_lamports: u64,
    /// Total tickets sold, which is also the next ticket number.
    pub total_tickets_sold: u64,
    pub winner: Option<Identity>,
    pub winning_ticket: u64,
    /// Round finished (winner selected).
    pub is_complete: bool,
    /// Winner claimed their prize.
    pub prize_claimed: bool,
}

/// One record per user, reused across rounds: balance, inclusive ticket
/// range, snapshot history and pending-withdrawal bookkeeping.
#[derive(Clone, Copy, Debug, PartialEq, Eq)]
#[verifier::ext_equal]
pub struct UserAccount {
    pub owner: Identity,
    pub balance: u64,
    /// First ticket number owned; meaningful only while `balance > 0`.
    pub ticket_start: u64,
    /// Last ticket number owned (inclusive).
    pub ticket_end: u64,
    /// Balance copies recorded at each of the three epochs.
    pub snapshot_balances: [u64; 3],
    /// Bit i set means epoch i + 1 was already snapshotted.
    pub snapshots_recorded_mask: u8,
    /// Round this account's live state belongs to; 0 means never joined.
    pub round_joined: u64,
    pub pending_withdrawal_amount: u64,
    pub pending_withdrawal_round: u64,
}

/// A winner's right to a payout from a completed round: created once per
/// (round, winner), immutable except for the `claimed` flag.
#[derive(Clone, Copy, Debug, PartialEq, Eq)]
#[verifier::ext_equal]
pub struct ClaimTicket {
    pub round_id: u64,
    pub winner: Identity,
    /// Prize to pay on top of the returned stake.
    pub prize_amount: u64,
    /// Original stake to return.
    pub stake_amount: u64,
    pub claimed: bool,
}

/// Why an operation was refused. Every refusal leaves all records
/// unchanged, except as the operation's contract states otherwise.
#[derive(Clone, Copy, Debug, PartialEq, Eq)]
pub enum ErrorCode {
    /// The amount is zero or otherwise out of range.
    InvalidAmount,
    /// A checked addition or subtraction would wrap.
    ArithmeticOverflow,
    /// The round's epoch counter is outside 1..=3.
    InvalidEpoch,
    /// The deposit is not an exact multiple of the ticket price.
    InvalidTicketAmount,
    /// No round record was supplied for the current round.
    MissingRoundAccount,
    /// The supplied round record is not the current round's.
    InvalidRoundAccount,
    /// The pool cannot cover the payout above its reserve floor.
    InsufficientFunds,
    /// Deposits are closed: the third epoch has begun.
    DepositsClosedEpoch3,
    /// The round has no tickets, so no winner exists.
    NoTicketsSold,
    /// The claim ticket was already consumed.
    AlreadyClaimed,
    /// The caller is not the recorded winner.
    NotWinner,
    /// The claim ticket belongs to another round.
    InvalidRound,
    /// The round has not completed yet.
    RoundNotComplete,
    /// The caller did not participate in this round.
    WrongRound,
    /// The recorded winner must use the claim path.
    WinnerMustClaim,
    /// Nothing to withdraw.
    NothingToWithdraw,
    /// The round is complete; deposits are blocked.
    RoundComplete,
    /// Teardown refused while prize liability is outstanding.
    UnclaimedPrizesExist,
}

/// Well-formedness of a round record: the epoch counter stays in 1..=3,
/// an incomplete round has no winner, no completion time and no claimed
/// prize, and a drawn winner implies a completed round whose winning
/// ticket was actually sold.
pub open spec fn round_wf(r: RoundState) -> bool {
    &&& 1 <= r.epoch_in_round <= 3
    &&& !r.is_complete ==> r.winner is None && !r.prize_claimed && r.end_epoch == 0
    &&& r.winner is Some ==> r.is_complete && r.total_tickets_sold > 0
        && r.winning_ticket < r.total_tickets_sold
}

} // verus!
