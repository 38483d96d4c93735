//! Settlement: claim-ticket issuance, the winner's claim path and the
//! non-winner withdrawal path.
//!
//! Payouts come out of the escrow pool, which must keep its reserve
//! floor: the payable balance is the pool balance above the floor, and a
//! payout that does not fit fails whole rather than paying partially. On
//! success the caller owes the returned payout as a fund transfer from
//! the pool to the caller; on failure nothing changes and nothing is
//! owed.

use vstd::prelude::*;

use crate::state::ClaimTicket;
use crate::state::ErrorCode;
use crate::state::ProtocolState;
use crate::state::RoundState;
use crate::state::UserAccount;

verus! {

/// The payable part of the pool: its balance above the reserve floor.
pub open spec fn spec_available(pool_balance: u64, reserve_floor: u64) -> u64 {
    if pool_balance >= reserve_floor {
        (pool_balance - reserve_floor) as u64
    } else {
        0
    }
}

/// The exact outcome of the winner's claim: the ticket must be unused,
/// belong to the caller and to this round, the round must be complete,
/// the payout `stake + prize` must fit in the numeric range, and the
/// pool must cover it above the reserve floor.
pub open spec fn claim_prize_result(
    round: RoundState,
    ticket: ClaimTicket,
    user: UserAccount,
    round_id: u64,
    pool_balance: u64,
    reserve_floor: u64,
) -> Result<u64, ErrorCode> {
    if ticket.claimed {
        Err(ErrorCode::AlreadyClaimed)
    } else if ticket.winner != user.owner {
        Err(ErrorCode::NotWinner)
    } else if ticket.round_id != round_id {
        Err(ErrorCode::InvalidRound)
    } else if !round.is_complete {
        Err(ErrorCode::RoundNotComplete)
    } else if ticket.stake_amount + ticket.prize_amount > u64::MAX {
        Err(ErrorCode::ArithmeticOverflow)
    } else if spec_available(pool_balance, reserve_floor) < ticket.stake_amount
        + ticket.prize_amount {
        Err(ErrorCode::InsufficientFunds)
    } else {
        Ok((ticket.stake_amount + ticket.prize_amount) as u64)
    }
}

/// The registry after a successful claim: the ticket's prize leaves the
/// unclaimed liability (never below zero).
pub open spec fn claim_protocol_after(p: ProtocolState, t: ClaimTicket) -> ProtocolState {
    ProtocolState {
        total_unclaimed_prizes: if p.total_unclaimed_prizes >= t.prize_amount {
            (p.total_unclaimed_prizes - t.prize_amount) as u64
        } else {
            0
        },
        ..p
    }
}

/// The winner's participant record after a successful claim: its live
/// state for this round is consumed; a record already reused by another
/// round is left alone.
pub open spec fn claim_user_after(u: UserAccount, round_id: u64) -> UserAccount {
    if u.round_joined == round_id {
        UserAccount { balance: 0, ticket_start: 0, ticket_end: 0, ..u }
    } else {
        u
    }
}

/// Winner claims stake plus prize for a completed round, against the
/// claim ticket issued for (round, winner). The payout is taken from the
/// ticket, not recomputed from live participant state. The caller's
/// identity is the participant record's owner.
pub fn claim_prize(
    protocol: &mut ProtocolState,
    round: &mut RoundState,
    ticket: &mut ClaimTicket,
    user: &mut UserAccount,
    round_id: u64,
    pool_balance: u64,
    reserve_floor: u64,
) -> (r: Result<u64, ErrorCode>)
    ensures
        r == claim_prize_result(
            *old(round),
            *old(ticket),
            *old(user),
            round_id,
            pool_balance,
            reserve_floor,
        ),
        r is Err ==> *final(protocol) == *old(protocol) && *final(round) == *old(round)
            && *final(ticket) == *old(ticket) && *final(user) == *old(user),
        r is Ok ==> {
            &&& *final(ticket) == (ClaimTicket { claimed: true, ..*old(ticket) })
            &&& *final(protocol) == claim_protocol_after(*old(protocol), *old(ticket))
            &&& *final(round) == (RoundState { prize_claimed: true, ..*old(round) })
            &&& *final(user) == claim_user_after(*old(user), round_id)
        },
{
    if ticket.claimed {
        return Err(ErrorCode::AlreadyClaimed);
    }
    if ticket.winner != user.owner {
        return Err(ErrorCode::NotWinner);
    }
    if ticket.round_id != round_id {
        return Err(ErrorCode::InvalidRound);
    }
    if !round.is_complete {
        return Err(ErrorCode::RoundNotComplete);
    }
    let total_payout = match ticket.stake_amount.checked_add(ticket.prize_amount) {
        Some(v) => v,
        None => {
            return Err(ErrorCode::ArithmeticOverflow);
        },
    };
    let available = if pool_balance >= reserve_floor {
        pool_balance - reserve_floor
    } else {
        0
    };
    if available < total_payout {
        return Err(ErrorCode::InsufficientFunds);
    }
    ticket.claimed = true;
    protocol.total_unclaimed_prizes = if protocol.total_unclaimed_prizes >= ticket.prize_amount {
        protocol.total_unclaimed_prizes - ticket.prize_amount
    } else {
        0
    };
    round.prize_claimed = true;
    if user.round_joined == round_id {
        user.balance = 0;
        user.ticket_start = 0;
        user.ticket_end = 0;
    }
    Ok(total_payout)
}

/// The exact outcome of the non-winner withdrawal: the round must be
/// complete, the caller must have joined it, the recorded winner is
/// steered to the claim path, and the payout `pending + balance` must be
/// positive, fit the numeric range and be covered by the pool above its
/// reserve floor.
pub open spec fn process_withdrawal_result(
    round: RoundState,
    user: UserAccount,
    round_id: u64,
    pool_balance: u64,
    reserve_floor: u64,
) -> Result<u64, ErrorCode> {
    if !round.is_complete {
        Err(ErrorCode::RoundNotComplete)
    } else if user.round_joined != round_id {
        Err(ErrorCode::WrongRound)
    } else if round.winner == Some(user.owner) {
        Err(ErrorCode::WinnerMustClaim)
    } else if user.pending_withdrawal_amount + user.balance > u64::MAX {
        Err(ErrorCode::ArithmeticOverflow)
    } else if user.pending_withdrawal_amount + user.balance == 0 {
        Err(ErrorCode::NothingToWithdraw)
    } else if spec_available(pool_balance, reserve_floor) < user.pending_withdrawal_amount
        + user.balance {
        Err(ErrorCode::InsufficientFunds)
    } else {
        Ok((user.pending_withdrawal_amount + user.balance) as u64)
    }
}

/// Non-winner reclaims their stake from a completed round: any earlier
/// voluntary withdrawal request plus the remaining live balance, in one
/// payout. The caller's identity is the participant record's owner.
pub fn process_withdrawal(
    round: &RoundState,
    user: &mut UserAccount,
    round_id: u64,
    pool_balance: u64,
    reserve_floor: u64,
) -> (r: Result<u64, ErrorCode>)
    ensures
        r == process_withdrawal_result(*round, *old(user), round_id, pool_balance, reserve_floor),
        r is Err ==> *final(user) == *old(user),
        r is Ok ==> *final(user) == (UserAccount {
            balance: 0,
            pending_withdrawal_amount: 0,
            ticket_start: 0,
            ticket_end: 0,
            ..*old(user)
        }),
{
    if !round.is_complete {
        return Err(ErrorCode::RoundNotComplete);
    }
    if user.round_joined != round_id {
        return Err(ErrorCode::WrongRound);
    }
    match round.winner {
        Some(winner) => {
            if winner == user.owner {
                return Err(ErrorCode::WinnerMustClaim);
            }
        },
        None => {},
    }
    let withdrawal_amount = match user.pending_withdrawal_amount.checked_add(user.balance) {
        Some(v) => v,
        None => {
            return Err(ErrorCode::ArithmeticOverflow);
        },
    };
    if withdrawal_amount == 0 {
        return Err(ErrorCode::NothingToWithdraw);
    }
    let available = if pool_balance >= reserve_floor {
        pool_balance - reserve_floor
    } else {
        0
    };
    if available < withdrawal_amount {
        return Err(ErrorCode::InsufficientFunds);
    }
    user.balance = 0;
    user.pending_withdrawal_amount = 0;
    user.ticket_start = 0;
    user.ticket_end = 0;
    Ok(withdrawal_amount)
}

/// The exact outcome of admin claim-ticket issuance with the given
/// prize: the round must be complete with a winner, and the added prize
/// liability must fit the numeric range.
pub open spec fn create_claim_ticket_result(
    protocol: ProtocolState,
    round: RoundState,
    prize_amount: u64,
) -> Result<(), ErrorCode> {
    if !round.is_complete {
        Err(ErrorCode::RoundNotComplete)
    } else if round.winner is None {
        Err(ErrorCode::NoTicketsSold)
    } else if protocol.total_unclaimed_prizes + prize_amount > u64::MAX {
        Err(ErrorCode::ArithmeticOverflow)
    } else {
        Ok(())
    }
}

/// Admin-triggered claim-ticket issuance: the admin supplies the prize
/// and stake amounts directly. Creates the one claim ticket for (round,
/// winner) — issuing it twice is refused by the storage layer's
/// duplicate-key rule, outside this library — and adds the prize to the
/// unclaimed liability.
pub fn create_claim_ticket(
    protocol: &mut ProtocolState,
    round: &RoundState,
    round_id: u64,
    prize_amount: u64,
    stake_amount: u64,
) -> (r: Result<ClaimTicket, ErrorCode>)
    ensures
        r matches Err(e) ==> Err::<(), ErrorCode>(e) == create_claim_ticket_result(
            *old(protocol),
            *round,
            prize_amount,
        ) && *final(protocol) == *old(protocol),
        r matches Ok(t) ==> {
            &&& create_claim_ticket_result(*old(protocol), *round, prize_amount) is Ok
            &&& t == (ClaimTicket {
                round_id,
                winner: round.winner.unwrap(),
                prize_amount,
                stake_amount,
                claimed: false,
            })
            &&& *final(protocol) == (ProtocolState {
                total_unclaimed_prizes: (old(protocol).total_unclaimed_prizes
                    + prize_amount) as u64,
                ..*old(protocol)
            })
        },
{
    if !round.is_complete {
        return Err(ErrorCode::RoundNotComplete);
    }
    let winner = match round.winner {
        Some(w) => w,
        None => {
            return Err(ErrorCode::NoTicketsSold);
        },
    };
    let new_liability = match protocol.total_unclaimed_prizes.checked_add(prize_amount) {
        Some(v) => v,
        None => {
            return Err(ErrorCode::ArithmeticOverflow);
        },
    };
    protocol.total_unclaimed_prizes = new_liability;
    Ok(ClaimTicket { round_id, winner, prize_amount, stake_amount, claimed: false })
}

/// The prize a winner-issued ticket carries: everyone else's stake, that
/// is the round's staked total less the winner's own balance (never
/// below zero).
pub open spec fn winner_prize_amount(round: RoundState, user: UserAccount) -> u64 {
    if round.total_staked_lamports >= user.balance {
        (round.total_staked_lamports - user.balance) as u64
    } else {
        0
    }
}

/// The exact outcome of winner-triggered claim-ticket issuance: the
/// round must be complete with a winner, the caller must be that winner,
/// and the added prize liability must fit the numeric range.
pub open spec fn create_claim_ticket_winner_result(
    protocol: ProtocolState,
    round: RoundState,
    user: UserAccount,
) -> Result<(), ErrorCode> {
    if !round.is_complete {
        Err(ErrorCode::RoundNotComplete)
    } else if round.winner is None {
        Err(ErrorCode::NoTicketsSold)
    } else if round.winner != Some(user.owner) {
        Err(ErrorCode::NotWinner)
    } else if protocol.total_unclaimed_prizes + winner_prize_amount(round, user) > u64::MAX {
        Err(ErrorCode::ArithmeticOverflow)
    } else {
        Ok(())
    }
}

/// Permissionless claim-ticket issuance by the winner: the prize is the
/// staked total less the winner's own balance, the stake is that
/// balance. The caller's identity is the participant record's owner.
pub fn create_claim_ticket_winner(
    protocol: &mut ProtocolState,
    round: &RoundState,
    user: &UserAccount,
    round_id: u64,
) -> (r: Result<ClaimTicket, ErrorCode>)
    ensures
        r matches Err(e) ==> Err::<(), ErrorCode>(e) == create_claim_ticket_winner_result(
            *old(protocol),
            *round,
            *user,
        ) && *final(protocol) == *old(protocol),
        r matches Ok(t) ==> {
            &&& create_claim_ticket_winner_result(*old(protocol), *round, *user) is Ok
            &&& t == (ClaimTicket {
                round_id,
                winner: user.owner,
                prize_amount: winner_prize_amount(*round, *user),
                stake_amount: user.balance,
                claimed: false,
            })
            &&& *final(protocol) == (ProtocolState {
                total_unclaimed_prizes: (old(protocol).total_unclaimed_prizes
                    + winner_prize_amount(*round, *user)) as u64,
                ..*old(protocol)
            })
        },
{
    if !round.is_complete {
        return Err(ErrorCode::RoundNotComplete);
    }
    let winner = match round.winner {
        Some(w) => w,
        None => {
            return Err(ErrorCode::NoTicketsSold);
        },
    };
    if winner != user.owner {
        return Err(ErrorCode::NotWinner);
    }
    let prize_amount = if round.total_staked_lamports >= user.balance {
        round.total_staked_lamports - user.balance
    } else {
        0
    };
    let new_liability = match protocol.total_unclaimed_prizes.checked_add(prize_amount) {
        Some(v) => v,
        None => {
            return Err(ErrorCode::ArithmeticOverflow);
        },
    };
    protocol.total_unclaimed_prizes = new_liability;
    Ok(ClaimTicket {
        round_id,
        winner,
        prize_amount,
        stake_amount: user.balance,
        claimed: false,
    })
}

} // verus!
