//! Winner selection and the two settlement paths.

use rafa::deposit::deposit;
use rafa::lifecycle::init_round;
use rafa::registry::close_protocol_state;
use rafa::registry::initialize;
use rafa::settle::claim_prize;
use rafa::settle::create_claim_ticket;
use rafa::settle::create_claim_ticket_winner;
use rafa::settle::process_withdrawal;
use rafa::state::ClaimTicket;
use rafa::state::ErrorCode;
use rafa::state::ProtocolState;
use rafa::state::RoundState;
use rafa::state::UserAccount;
use rafa::winner::select_winner_local;
use rafa::EPOCH_DURATION_MS;
use rafa::TICKET_PRICE_LAMPORTS;

const PRICE: u64 = TICKET_PRICE_LAMPORTS;
const DUR: u64 = EPOCH_DURATION_MS;

fn user(owner: u64) -> UserAccount {
    UserAccount {
        owner,
        balance: 0,
        ticket_start: 0,
        ticket_end: 0,
        snapshot_balances: [0; 3],
        snapshots_recorded_mask: 0,
        round_joined: 0,
        pending_withdrawal_amount: 0,
        pending_withdrawal_round: 0,
    }
}

/// A protocol with one completed three-ticket round: alice holds ticket
/// 0, bob 1, carol 2, and bob is the recorded winner.
fn completed_round() -> (ProtocolState, RoundState, UserAccount, UserAccount, UserAccount) {
    let mut p = initialize(7, 8);
    let mut round = init_round(&mut p, 1, 0);
    let empty = Vec::new();
    let mut alice = user(11);
    let mut bob = user(12);
    let mut carol = user(13);
    assert!(deposit(&p, &mut round, &mut alice, &empty, 11, PRICE, PRICE, DUR, 0, 0, 0).is_ok());
    assert!(deposit(&p, &mut round, &mut bob, &empty, 12, PRICE, PRICE, DUR, 0, 0, 0).is_ok());
    assert!(deposit(&p, &mut round, &mut carol, &empty, 13, PRICE, PRICE, DUR, 0, 0, 0).is_ok());
    let cands = vec![Some(alice), Some(bob), Some(carol)];
    // 7 mod 3 == 1: ticket #1, bob.
    assert!(select_winner_local(&mut round, 7, &cands).is_ok());
    assert_eq!(round.winner, Some(12));
    (p, round, alice, bob, carol)
}

#[test]
fn manual_draw_selects_owner_of_drawn_ticket() {
    let (_, round, _, _, _) = completed_round();
    assert!(round.is_complete);
    assert_eq!(round.winning_ticket, 1);
    assert_eq!(round.winner, Some(12));
}

#[test]
fn manual_draw_rejects_round_without_tickets() {
    let mut p = initialize(7, 8);
    let mut round = init_round(&mut p, 1, 0);
    let cands = Vec::new();
    assert_eq!(select_winner_local(&mut round, 7, &cands), Err(ErrorCode::InvalidAmount));
    assert!(!round.is_complete);
}

#[test]
fn manual_draw_fails_explicitly_when_no_range_matches() {
    let mut p = initialize(7, 8);
    let mut round = init_round(&mut p, 1, 0);
    let empty = Vec::new();
    let mut alice = user(11);
    assert!(deposit(&p, &mut round, &mut alice, &empty, 11, PRICE, PRICE, DUR, 0, 0, 0).is_ok());
    // Candidate list without the ticket owner: the manual path errors
    // instead of completing silently.
    assert_eq!(select_winner_local(&mut round, 0, &empty), Err(ErrorCode::InvalidAmount));
    assert!(!round.is_complete);
}

#[test]
fn manual_draw_matches_stale_records_too() {
    // Unlike the time-driven path, the manual draw does not restrict
    // candidates to the round's own participants.
    let mut p = initialize(7, 8);
    let mut round = init_round(&mut p, 1, 0);
    let empty = Vec::new();
    let mut alice = user(11);
    assert!(deposit(&p, &mut round, &mut alice, &empty, 11, PRICE, PRICE, DUR, 0, 0, 0).is_ok());
    let stale = UserAccount { round_joined: 99, ..alice };
    let cands = vec![Some(stale)];
    assert!(select_winner_local(&mut round, 0, &cands).is_ok());
    assert_eq!(round.winner, Some(11));
}

#[test]
fn manual_draw_rejects_completed_round() {
    let (_, mut round, alice, _, _) = completed_round();
    let cands = vec![Some(alice)];
    assert_eq!(select_winner_local(&mut round, 0, &cands), Err(ErrorCode::RoundComplete));
    assert_eq!(round.winner, Some(12));
}

#[test]
fn admin_claim_ticket_carries_supplied_amounts() {
    let (mut p, round, _, _, _) = completed_round();
    let t = create_claim_ticket(&mut p, &round, 1, 500, 200).unwrap();
    assert_eq!(t.round_id, 1);
    assert_eq!(t.winner, 12);
    assert_eq!(t.prize_amount, 500);
    assert_eq!(t.stake_amount, 200);
    assert!(!t.claimed);
    assert_eq!(p.total_unclaimed_prizes, 500);
}

#[test]
fn admin_claim_ticket_requires_completed_round_with_winner() {
    let mut p = initialize(7, 8);
    let open_round = init_round(&mut p, 1, 0);
    assert_eq!(
        create_claim_ticket(&mut p, &open_round, 1, 500, 200),
        Err(ErrorCode::RoundNotComplete)
    );
    let no_winner = RoundState { is_complete: true, ..open_round };
    assert_eq!(create_claim_ticket(&mut p, &no_winner, 1, 500, 200), Err(ErrorCode::NoTicketsSold));
    assert_eq!(p.total_unclaimed_prizes, 0);
}

#[test]
fn winner_claim_ticket_computes_prize_from_staked_total() {
    let (mut p, round, _, bob, _) = completed_round();
    let t = create_claim_ticket_winner(&mut p, &round, &bob, 1).unwrap();
    // Prize is everyone else's stake: 3 tickets staked, bob holds one.
    assert_eq!(t.prize_amount, 2 * PRICE);
    assert_eq!(t.stake_amount, PRICE);
    assert_eq!(t.winner, 12);
    assert!(!t.claimed);
    assert_eq!(p.total_unclaimed_prizes, 2 * PRICE);
}

#[test]
fn winner_claim_ticket_rejects_non_winner() {
    let (mut p, round, alice, _, _) = completed_round();
    assert_eq!(create_claim_ticket_winner(&mut p, &round, &alice, 1), Err(ErrorCode::NotWinner));
    assert_eq!(p.total_unclaimed_prizes, 0);
}

#[test]
fn claim_pays_stake_plus_prize_and_consumes_ticket() {
    let (mut p, mut round, _, mut bob, _) = completed_round();
    let mut ticket = create_claim_ticket_winner(&mut p, &round, &bob, 1).unwrap();
    let payout = claim_prize(&mut p, &mut round, &mut ticket, &mut bob, 1, 4 * PRICE, PRICE / 2);
    assert_eq!(payout, Ok(3 * PRICE));
    assert!(ticket.claimed);
    assert!(round.prize_claimed);
    assert_eq!(p.total_unclaimed_prizes, 0);
    assert_eq!(bob.balance, 0);
    assert_eq!((bob.ticket_start, bob.ticket_end), (0, 0));
}

#[test]
fn claim_twice_fails_with_already_claimed() {
    let (mut p, mut round, _, mut bob, _) = completed_round();
    let mut ticket = create_claim_ticket_winner(&mut p, &round, &bob, 1).unwrap();
    assert!(claim_prize(&mut p, &mut round, &mut ticket, &mut bob, 1, 4 * PRICE, 0).is_ok());
    let second = claim_prize(&mut p, &mut round, &mut ticket, &mut bob, 1, 4 * PRICE, 0);
    assert_eq!(second, Err(ErrorCode::AlreadyClaimed));
}

#[test]
fn claim_by_non_winner_fails() {
    let (mut p, mut round, mut alice, bob, _) = completed_round();
    let mut ticket = create_claim_ticket_winner(&mut p, &round, &bob, 1).unwrap();
    let r = claim_prize(&mut p, &mut round, &mut ticket, &mut alice, 1, 4 * PRICE, 0);
    assert_eq!(r, Err(ErrorCode::NotWinner));
    assert!(!ticket.claimed);
}

#[test]
fn claim_rejects_ticket_of_another_round() {
    let (mut p, mut round, _, mut bob, _) = completed_round();
    let t = create_claim_ticket_winner(&mut p, &round, &bob, 1).unwrap();
    let mut wrong = ClaimTicket { round_id: 2, ..t };
    let r = claim_prize(&mut p, &mut round, &mut wrong, &mut bob, 1, 4 * PRICE, 0);
    assert_eq!(r, Err(ErrorCode::InvalidRound));
}

#[test]
fn claim_requires_completed_round() {
    let mut p = initialize(7, 8);
    let mut open_round = init_round(&mut p, 1, 0);
    let mut bob = user(12);
    let mut ticket = ClaimTicket {
        round_id: 1,
        winner: 12,
        prize_amount: 5,
        stake_amount: 10,
        claimed: false,
    };
    let r = claim_prize(&mut p, &mut open_round, &mut ticket, &mut bob, 1, 100, 0);
    assert_eq!(r, Err(ErrorCode::RoundNotComplete));
}

#[test]
fn claim_respects_pool_reserve_floor() {
    let (mut p, mut round, _, mut bob, _) = completed_round();
    let mut ticket = create_claim_ticket_winner(&mut p, &round, &bob, 1).unwrap();
    // Payout is 3 * PRICE; the pool holds it, but not above the floor.
    let r = claim_prize(&mut p, &mut round, &mut ticket, &mut bob, 1, 3 * PRICE, 1);
    assert_eq!(r, Err(ErrorCode::InsufficientFunds));
    assert!(!ticket.claimed);
    assert_eq!(p.total_unclaimed_prizes, 2 * PRICE);
}

#[test]
fn withdrawal_pays_pending_plus_balance_and_zeroes_state() {
    let (_, round, mut alice, _, _) = completed_round();
    alice.pending_withdrawal_amount = 3;
    let r = process_withdrawal(&round, &mut alice, 1, 4 * PRICE, 0);
    assert_eq!(r, Ok(PRICE + 3));
    assert_eq!(alice.balance, 0);
    assert_eq!(alice.pending_withdrawal_amount, 0);
    assert_eq!((alice.ticket_start, alice.ticket_end), (0, 0));
}

#[test]
fn withdrawal_by_winner_fails_with_winner_must_claim() {
    let (_, round, _, mut bob, _) = completed_round();
    let r = process_withdrawal(&round, &mut bob, 1, 4 * PRICE, 0);
    assert_eq!(r, Err(ErrorCode::WinnerMustClaim));
    assert_eq!(bob.balance, PRICE);
}

#[test]
fn withdrawal_requires_completed_round() {
    let mut p = initialize(7, 8);
    let open_round = init_round(&mut p, 1, 0);
    let mut alice = user(11);
    alice.round_joined = 1;
    alice.balance = 5;
    let r = process_withdrawal(&open_round, &mut alice, 1, 100, 0);
    assert_eq!(r, Err(ErrorCode::RoundNotComplete));
}

#[test]
fn withdrawal_rejects_participant_of_another_round() {
    let (_, round, mut alice, _, _) = completed_round();
    alice.round_joined = 9;
    let r = process_withdrawal(&round, &mut alice, 1, 4 * PRICE, 0);
    assert_eq!(r, Err(ErrorCode::WrongRound));
}

#[test]
fn withdrawal_with_nothing_to_pay_fails() {
    let (_, round, mut alice, _, _) = completed_round();
    alice.balance = 0;
    alice.pending_withdrawal_amount = 0;
    let r = process_withdrawal(&round, &mut alice, 1, 4 * PRICE, 0);
    assert_eq!(r, Err(ErrorCode::NothingToWithdraw));
}

#[test]
fn withdrawal_respects_pool_reserve_floor() {
    let (_, round, mut alice, _, _) = completed_round();
    let r = process_withdrawal(&round, &mut alice, 1, PRICE, 1);
    assert_eq!(r, Err(ErrorCode::InsufficientFunds));
    assert_eq!(alice.balance, PRICE);
}

#[test]
fn teardown_requires_zero_liability() {
    let (mut p, round, _, bob, _) = completed_round();
    assert!(close_protocol_state(&p).is_ok());
    let _ = create_claim_ticket_winner(&mut p, &round, &bob, 1).unwrap();
    assert_eq!(close_protocol_state(&p), Err(ErrorCode::UnclaimedPrizesExist));
}

#[test]
fn claim_rejects_payout_overflow() {
    let (mut p, mut round, _, mut bob, _) = completed_round();
    let mut ticket = ClaimTicket {
        round_id: 1,
        winner: 12,
        prize_amount: u64::MAX,
        stake_amount: 1,
        claimed: false,
    };
    let r = claim_prize(&mut p, &mut round, &mut ticket, &mut bob, 1, u64::MAX, 0);
    assert_eq!(r, Err(ErrorCode::ArithmeticOverflow));
    assert!(!ticket.claimed);
}

#[test]
fn claim_succeeds_at_exact_reserve_boundary() {
    let (mut p, mut round, _, mut bob, _) = completed_round();
    let mut ticket = create_claim_ticket_winner(&mut p, &round, &bob, 1).unwrap();
    // The pool covers the payout exactly, with the floor intact.
    let r = claim_prize(&mut p, &mut round, &mut ticket, &mut bob, 1, 3 * PRICE + 5, 5);
    assert_eq!(r, Ok(3 * PRICE));
    assert!(ticket.claimed);
}
