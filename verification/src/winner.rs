//! Winner selection: find the participant whose ticket range contains a
//! drawn ticket number.
//!
//! Candidate lists are externally supplied and may contain unrelated
//! records; an entry that did not parse as a participant record arrives
//! as `None` and is skipped, never treated as an error.

use vstd::prelude::*;

use crate::state::ErrorCode;
use crate::state::Identity;
use crate::state::RoundState;
use crate::state::UserAccount;

verus! {

/// First candidate at or after position `i` who joined round `rid` and
/// whose inclusive ticket range contains `ticket`; `None` past the end.
pub open spec fn find_winner_from(
    cands: Seq<Option<UserAccount>>,
    rid: u64,
    ticket: u64,
    i: int,
) -> Option<Identity>
    decreases cands.len() - i,
{
    if i < 0 || i >= cands.len() {
        None
    } else {
        match cands[i] {
            Some(u) => {
                if u.round_joined == rid && u.ticket_start <= ticket && ticket <= u.ticket_end {
                    Some(u.owner)
                } else {
                    find_winner_from(cands, rid, ticket, i + 1)
                }
            },
            None => find_winner_from(cands, rid, ticket, i + 1),
        }
    }
}

/// The owner of `ticket` in round `rid`: the first matching candidate,
/// restricted to participants who joined that round.
pub open spec fn spec_find_winner(
    cands: Seq<Option<UserAccount>>,
    rid: u64,
    ticket: u64,
) -> Option<Identity> {
    find_winner_from(cands, rid, ticket, 0)
}

/// First candidate at or after position `i` whose range contains
/// `ticket`, with no round restriction (the manual draw matches stale
/// records too; see `select_winner_local`).
pub open spec fn find_ticket_owner_from(
    cands: Seq<Option<UserAccount>>,
    ticket: u64,
    i: int,
) -> Option<Identity>
    decreases cands.len() - i,
{
    if i < 0 || i >= cands.len() {
        None
    } else {
        match cands[i] {
            Some(u) => {
                if u.ticket_start <= ticket && ticket <= u.ticket_end {
                    Some(u.owner)
                } else {
                    find_ticket_owner_from(cands, ticket, i + 1)
                }
            },
            None => find_ticket_owner_from(cands, ticket, i + 1),
        }
    }
}

/// The owner of `ticket` among all candidates, whatever round they
/// joined.
pub open spec fn spec_find_ticket_owner(
    cands: Seq<Option<UserAccount>>,
    ticket: u64,
) -> Option<Identity> {
    find_ticket_owner_from(cands, ticket, 0)
}

/// Scan the candidates for the participant of round `rid` who owns
/// `ticket`.
pub fn find_winner(cands: &Vec<Option<UserAccount>>, rid: u64, ticket: u64) -> (r: Option<
    Identity,
>)
    ensures
        r == spec_find_winner(cands@, rid, ticket),
{
    let mut i: usize = 0;
    while i < cands.len()
        invariant
            0 <= i <= cands.len(),
            spec_find_winner(cands@, rid, ticket) == find_winner_from(
                cands@,
                rid,
                ticket,
                i as int,
            ),
        decreases cands.len() - i,
    {
        match &cands[i] {
            Some(u) => {
                if u.round_joined == rid && u.ticket_start <= ticket && ticket <= u.ticket_end {
                    return Some(u.owner);
                }
            },
            None => {},
        }
        i = i + 1;
    }
    None
}

/// Scan the candidates for the owner of `ticket`, ignoring which round
/// each candidate joined.
pub fn find_ticket_owner(cands: &Vec<Option<UserAccount>>, ticket: u64) -> (r: Option<Identity>)
    ensures
        r == spec_find_ticket_owner(cands@, ticket),
{
    let mut i: usize = 0;
    while i < cands.len()
        invariant
            0 <= i <= cands.len(),
            spec_find_ticket_owner(cands@, ticket) == find_ticket_owner_from(
                cands@,
                ticket,
                i as int,
            ),
        decreases cands.len() - i,
    {
        match &cands[i] {
            Some(u) => {
                if u.ticket_start <= ticket && ticket <= u.ticket_end {
                    return Some(u.owner);
                }
            },
            None => {},
        }
        i = i + 1;
    }
    None
}

/// Outcome of the admin-triggered manual draw on a round, given the
/// drawn `seed` and the candidate list.
pub open spec fn select_winner_result(
    r: RoundState,
    seed: u64,
    cands: Seq<Option<UserAccount>>,
) -> Result<(), ErrorCode> {
    if r.is_complete {
        Err(ErrorCode::RoundComplete)
    } else if r.total_tickets_sold == 0 {
        Err(ErrorCode::InvalidAmount)
    } else if spec_find_ticket_owner(cands, (seed % r.total_tickets_sold) as u64) is None {
        Err(ErrorCode::InvalidAmount)
    } else {
        Ok(())
    }
}

/// Admin-triggered manual draw: `winning_ticket = seed % total tickets`,
/// the winner is the first candidate whose range holds that ticket, and
/// the round completes. Unlike the time-driven path, the search does not
/// restrict candidates to the round's own participants, and a draw that
/// matches no candidate fails explicitly instead of leaving the round
/// open silently. A round that already completed is refused, so a winner
/// is never overwritten.
pub fn select_winner_local(
    round: &mut RoundState,
    seed: u64,
    cands: &Vec<Option<UserAccount>>,
) -> (r: Result<(), ErrorCode>)
    ensures
        r == select_winner_result(*old(round), seed, cands@),
        r is Err ==> *final(round) == *old(round),
        r is Ok ==> *final(round) == (RoundState {
            winner: spec_find_ticket_owner(cands@, (seed % old(round).total_tickets_sold) as u64),
            winning_ticket: (seed % old(round).total_tickets_sold) as u64,
            is_complete: true,
            ..*old(round)
        }),
{
    if round.is_complete {
        return Err(ErrorCode::RoundComplete);
    }
    if round.total_tickets_sold == 0 {
        return Err(ErrorCode::InvalidAmount);
    }
    let winning_ticket = seed % round.total_tickets_sold;
    match find_ticket_owner(cands, winning_ticket) {
        Some(chosen) => {
            round.winner = Some(chosen);
            round.winning_ticket = winning_ticket;
            round.is_complete = true;
            Ok(())
        },
        None => Err(ErrorCode::InvalidAmount),
    }
}

} // verus!
