//! The properties the protocol promises across operations, stated and
//! proved over the same spec functions the operations' contracts use.

use vstd::prelude::*;

use crate::deposit::deposit_effective_balance;
use crate::deposit::deposit_result;
use crate::deposit::deposit_user_update;
use crate::deposit::request_withdrawal_update;
use crate::lifecycle::lifecycle_round_after;
use crate::lifecycle::spec_target_epoch;
use crate::settle::claim_prize_result;
use crate::settle::claim_user_after;
use crate::settle::process_withdrawal_result;
use crate::state::ClaimTicket;
use crate::state::ErrorCode;
use crate::state::ProtocolState;
use crate::state::RoundState;
use crate::state::UserAccount;
use crate::state::Identity;
use crate::state::round_wf;
use crate::winner::select_winner_result;
use crate::winner::spec_find_ticket_owner;

verus! {

/// A participant whose live state belongs to round `rid` and who still
/// holds tickets there.
pub open spec fn active_in_round(u: UserAccount, rid: u64) -> bool {
    u.round_joined == rid && u.balance > 0
}

/// Whether ticket number `t` lies in the participant's inclusive range.
pub open spec fn owns_ticket(u: UserAccount, t: int) -> bool {
    u.ticket_start <= t <= u.ticket_end
}

/// Whether two ticket ranges share no ticket.
pub open spec fn ranges_disjoint(a: UserAccount, b: UserAccount) -> bool {
    a.ticket_end < b.ticket_start || b.ticket_end < a.ticket_start
}

/// Whether some active participant of round `rid` owns ticket `t`.
pub open spec fn ticket_owned(users: Seq<UserAccount>, rid: u64, t: int) -> bool {
    exists|i: int|
        0 <= i < users.len() && active_in_round(#[trigger] users[i], rid) && owns_ticket(
            users[i],
            t,
        )
}

/// Ticket partition: the ranges of round `rid`'s active participants
/// lie within `[0, total)`, together cover every ticket in `[0, total)`,
/// and never overlap.
pub open spec fn tickets_partitioned(users: Seq<UserAccount>, rid: u64, total: u64) -> bool {
    &&& forall|i: int|
        0 <= i < users.len() && active_in_round(#[trigger] users[i], rid)
            ==> users[i].ticket_start <= users[i].ticket_end < total
    &&& forall|t: int| 0 <= t < total ==> ticket_owned(users, rid, t)
    &&& forall|i: int, j: int|
        0 <= i < users.len() && 0 <= j < users.len() && i != j && active_in_round(
            #[trigger] users[i],
            rid,
        ) && active_in_round(#[trigger] users[j], rid) ==> ranges_disjoint(users[i], users[j])
}

/// Ticket partition is preserved by a successful deposit: if the ranges
/// of the round's participants partition `[0, total)` and the depositor
/// at position `j` either holds no live tickets in this round or holds
/// the most recently issued range (ending at `total - 1`), then after
/// the deposit of `num` tickets the updated participants partition
/// `[0, total + num)`.
///
/// The two hypotheses on the depositor name real limits of the design:
/// a fresh record never joined a round while holding a balance, and the
/// range-extension rule is only sound for the latest depositor — a
/// participant re-depositing after someone else bought tickets would
/// extend its range over the neighbour's.
pub proof fn lemma_deposit_preserves_ticket_partition(
    users: Seq<UserAccount>,
    j: int,
    owner: Identity,
    rid: u64,
    total: u64,
    num: u64,
    amount: u64,
)
    requires
        tickets_partitioned(users, rid, total),
        0 <= j < users.len(),
        num >= 1,
        amount >= 1,
        total + num <= u64::MAX,
        deposit_effective_balance(users[j], rid) + amount <= u64::MAX,
        users[j].round_joined == 0 ==> users[j].balance == 0,
        active_in_round(users[j], rid) ==> users[j].ticket_end + 1 == total,
    ensures
        tickets_partitioned(
            users.update(j, deposit_user_update(users[j], owner, rid, total, num, amount)),
            rid,
            (total + num) as u64,
        ),
{
    let u = users[j];
    let u2 = deposit_user_update(u, owner, rid, total, num, amount);
    let users2 = users.update(j, u2);
    let total2 = (total + num) as u64;
    let was_active = active_in_round(u, rid);
    assert(active_in_round(u2, rid));
    if was_active {
        assert(u2.ticket_start == u.ticket_start);
        assert(u2.ticket_end == total + num - 1);
        assert(u.ticket_start <= u.ticket_end < total);
    } else {
        assert(u2.ticket_start == total);
        assert(u2.ticket_end == total + num - 1);
    }
    // Bounds.
    assert forall|i: int|
        0 <= i < users2.len() && active_in_round(#[trigger] users2[i], rid)
            implies users2[i].ticket_start <= users2[i].ticket_end < total2 by {
        if i != j {
            assert(users2[i] == users[i]);
        }
    }
    // Coverage.
    assert forall|t: int| 0 <= t < total2 implies ticket_owned(users2, rid, t) by {
        if t < total {
            assert(ticket_owned(users, rid, t));
            let w = choose|i: int|
                0 <= i < users.len() && active_in_round(#[trigger] users[i], rid) && owns_ticket(
                    users[i],
                    t,
                );
            if w != j {
                assert(active_in_round(users2[w], rid) && owns_ticket(users2[w], t));
            } else {
                assert(was_active);
                assert(active_in_round(users2[j], rid) && owns_ticket(users2[j], t));
            }
        } else {
            assert(active_in_round(users2[j], rid) && owns_ticket(users2[j], t));
        }
    }
    // Disjointness.
    assert forall|i: int, k: int|
        0 <= i < users2.len() && 0 <= k < users2.len() && i != k && active_in_round(
            #[trigger] users2[i],
            rid,
        ) && active_in_round(#[trigger] users2[k], rid) implies ranges_disjoint(
        users2[i],
        users2[k],
    ) by {
        if i != j && k != j {
            assert(users2[i] == users[i] && users2[k] == users[k]);
        } else {
            let o = if i == j {
                k
            } else {
                i
            };
            assert(users2[o] == users[o]);
            assert(active_in_round(users[o], rid));
            assert(users[o].ticket_start <= users[o].ticket_end < total);
            if was_active {
                assert(ranges_disjoint(users[o], u));
                assert(users[o].ticket_end < u.ticket_start);
            }
        }
    }
}

/// What round `rid` still owes a participant record: its live balance
/// plus its pending withdrawal, counted only while the record belongs to
/// that round.
pub open spec fn round_holding(u: UserAccount, rid: u64) -> int {
    if u.round_joined == rid {
        u.balance + u.pending_withdrawal_amount
    } else {
        0
    }
}

/// The round's total obligation to its participants.
pub open spec fn sum_holdings(users: Seq<UserAccount>, rid: u64) -> int
    decreases users.len(),
{
    if users.len() == 0 {
        0
    } else {
        sum_holdings(users.drop_last(), rid) + round_holding(users.last(), rid)
    }
}

/// Replacing one record changes the holdings sum by exactly that
/// record's difference.
pub proof fn lemma_sum_holdings_update(users: Seq<UserAccount>, j: int, u2: UserAccount, rid: u64)
    requires
        0 <= j < users.len(),
    ensures
        sum_holdings(users.update(j, u2), rid) == sum_holdings(users, rid) - round_holding(
            users[j],
            rid,
        ) + round_holding(u2, rid),
    decreases users.len(),
{
    let n = users.len() as int - 1;
    if j == n {
        assert(users.update(j, u2).drop_last() =~= users.drop_last());
        assert(users.update(j, u2).last() == u2);
    } else {
        lemma_sum_holdings_update(users.drop_last(), j, u2, rid);
        assert(users.update(j, u2).drop_last() =~= users.drop_last().update(j, u2));
        assert(users.update(j, u2).last() == users.last());
    }
}

/// Conservation under deposits: a successful deposit of `amount` raises
/// the participants' holdings in the current round by exactly `amount`
/// — the same increment the deposit's contract applies to the round's
/// `total_staked_lamports`, so the staked total keeps matching what the
/// round owes.
pub proof fn lemma_deposit_preserves_conservation(
    users: Seq<UserAccount>,
    j: int,
    owner: Identity,
    rid: u64,
    start: u64,
    num: u64,
    amount: u64,
)
    requires
        0 <= j < users.len(),
        users[j].round_joined == 0 ==> users[j].balance == 0 && users[j].pending_withdrawal_amount
            == 0,
        deposit_effective_balance(users[j], rid) + amount <= u64::MAX,
    ensures
        sum_holdings(users.update(j, deposit_user_update(users[j], owner, rid, start, num, amount)), rid)
            == sum_holdings(users, rid) + amount,
{
    let u2 = deposit_user_update(users[j], owner, rid, start, num, amount);
    lemma_sum_holdings_update(users, j, u2, rid);
    assert(round_holding(u2, rid) == round_holding(users[j], rid) + amount);
}

/// Conservation under mid-round withdrawal requests: moving `amount`
/// from the live balance to the pending bucket leaves the round's
/// obligation — and so its match with `total_staked_lamports` — exactly
/// as it was.
pub proof fn lemma_request_withdrawal_preserves_conservation(
    users: Seq<UserAccount>,
    j: int,
    rid: u64,
    current_round: u64,
    amount: u64,
)
    requires
        0 <= j < users.len(),
        amount <= users[j].balance,
        users[j].pending_withdrawal_amount + amount <= u64::MAX,
    ensures
        sum_holdings(
            users.update(j, request_withdrawal_update(users[j], current_round, amount)),
            rid,
        ) == sum_holdings(users, rid),
{
    let u2 = request_withdrawal_update(users[j], current_round, amount);
    lemma_sum_holdings_update(users, j, u2, rid);
    assert(round_holding(u2, rid) == round_holding(users[j], rid));
}

/// Single finalization, time-driven path: a completed round is a fixed
/// point of the lifecycle step, so `is_complete` flips false-to-true at
/// most once and a drawn winner is never overwritten; on a well-formed
/// round the winner is set exactly when the step completes the round,
/// and well-formedness is preserved.
pub proof fn lemma_single_finalization_lifecycle(
    r: RoundState,
    prize_seed: u64,
    now_ms: u64,
    duration_ms: u64,
    seed: u64,
    cands: Seq<Option<UserAccount>>,
)
    requires
        duration_ms > 0,
    ensures
        r.is_complete ==> lifecycle_round_after(r, prize_seed, now_ms, duration_ms, seed, cands)
            == r,
        round_wf(r) && !r.is_complete ==> {
            let after = lifecycle_round_after(r, prize_seed, now_ms, duration_ms, seed, cands);
            &&& after.winner is Some <==> after.is_complete
            &&& round_wf(after)
        },
{
    if !r.is_complete && round_wf(r) {
        let after = lifecycle_round_after(r, prize_seed, now_ms, duration_ms, seed, cands);
        let target = spec_target_epoch(r.start_epoch, now_ms, duration_ms);
        assert(1 <= target <= 3);
        if after.is_complete {
            assert(after.winning_ticket == seed % r.total_tickets_sold);
            assert(r.total_tickets_sold > 0);
            assert(after.winning_ticket < after.total_tickets_sold);
        }
    }
}

/// Single finalization, manual path: the admin draw refuses a round
/// that already completed, so it can never overwrite a winner; a draw
/// it grants completes a well-formed round into a well-formed state.
pub proof fn lemma_single_finalization_manual(
    r: RoundState,
    seed: u64,
    cands: Seq<Option<UserAccount>>,
)
    ensures
        r.is_complete ==> select_winner_result(r, seed, cands) == Err::<(), ErrorCode>(
            ErrorCode::RoundComplete,
        ),
        round_wf(r) && select_winner_result(r, seed, cands) is Ok ==> round_wf(
            RoundState {
                winner: spec_find_ticket_owner(cands, (seed % r.total_tickets_sold) as u64),
                winning_ticket: (seed % r.total_tickets_sold) as u64,
                is_complete: true,
                ..r
            },
        ),
{
}

/// The lifecycle step only moves the round's counters forward: the
/// epoch never goes back, and the step itself sells no tickets, so the
/// ticket total is monotone while the round is open — only deposits
/// raise it.
pub proof fn lemma_lifecycle_counters_monotone(
    r: RoundState,
    prize_seed: u64,
    now_ms: u64,
    duration_ms: u64,
    seed: u64,
    cands: Seq<Option<UserAccount>>,
)
    requires
        duration_ms > 0,
    ensures
        lifecycle_round_after(r, prize_seed, now_ms, duration_ms, seed, cands).epoch_in_round
            >= r.epoch_in_round,
        lifecycle_round_after(r, prize_seed, now_ms, duration_ms, seed, cands).total_tickets_sold
            == r.total_tickets_sold,
        lifecycle_round_after(r, prize_seed, now_ms, duration_ms, seed, cands).start_epoch
            == r.start_epoch,
{
}

/// Idempotent crank: one lifecycle step brings the round to the state
/// the clock asks for, so a second step with the same time, seed and
/// candidates changes nothing.
pub proof fn lemma_crank_idempotent(
    r: RoundState,
    prize_seed: u64,
    now_ms: u64,
    duration_ms: u64,
    seed: u64,
    cands: Seq<Option<UserAccount>>,
)
    requires
        duration_ms > 0,
    ensures
        lifecycle_round_after(
            lifecycle_round_after(r, prize_seed, now_ms, duration_ms, seed, cands),
            prize_seed,
            now_ms,
            duration_ms,
            seed,
            cands,
        ) == lifecycle_round_after(r, prize_seed, now_ms, duration_ms, seed, cands),
{
    let r1 = lifecycle_round_after(r, prize_seed, now_ms, duration_ms, seed, cands);
    if !r.is_complete && !r1.is_complete {
        let target = spec_target_epoch(r.start_epoch, now_ms, duration_ms);
        assert(r1.start_epoch == r.start_epoch);
        assert(r1.epoch_in_round >= target);
        let r2 = lifecycle_round_after(r1, prize_seed, now_ms, duration_ms, seed, cands);
        assert(r2 =~= r1);
    }
}

/// Deposit rejection boundary: a positive deposit that is not an exact
/// multiple of the ticket price always earns `InvalidTicketAmount`; once
/// the (advanced) round's third epoch has begun, a deposit always earns
/// `DepositsClosedEpoch3` if the round stays open and `RoundComplete` if
/// it finalized.
pub proof fn lemma_deposit_rejection_boundary(
    protocol: ProtocolState,
    round: RoundState,
    user: UserAccount,
    amount: u64,
    ticket_price: u64,
    now_ms: u64,
    duration_ms: u64,
    seed: u64,
    cands: Seq<Option<UserAccount>>,
)
    requires
        ticket_price > 0,
    ensures
        amount > 0 && amount % ticket_price != 0 ==> deposit_result(
            protocol,
            round,
            user,
            amount,
            ticket_price,
            now_ms,
            duration_ms,
            seed,
            cands,
        ) == Err::<(), ErrorCode>(ErrorCode::InvalidTicketAmount),
        amount > 0 && amount % ticket_price == 0 && amount / ticket_price > 0
            && round.round_id == protocol.current_round && lifecycle_round_after(
            round,
            protocol.prize_seed_amount,
            now_ms,
            duration_ms,
            seed,
            cands,
        ).is_complete ==> deposit_result(
            protocol,
            round,
            user,
            amount,
            ticket_price,
            now_ms,
            duration_ms,
            seed,
            cands,
        ) == Err::<(), ErrorCode>(ErrorCode::RoundComplete),
        amount > 0 && amount % ticket_price == 0 && amount / ticket_price > 0
            && round.round_id == protocol.current_round && !lifecycle_round_after(
            round,
            protocol.prize_seed_amount,
            now_ms,
            duration_ms,
            seed,
            cands,
        ).is_complete && lifecycle_round_after(
            round,
            protocol.prize_seed_amount,
            now_ms,
            duration_ms,
            seed,
            cands,
        ).epoch_in_round >= 3 ==> deposit_result(
            protocol,
            round,
            user,
            amount,
            ticket_price,
            now_ms,
            duration_ms,
            seed,
            cands,
        ) == Err::<(), ErrorCode>(ErrorCode::DepositsClosedEpoch3),
{
}

/// Settlement exclusivity, withdrawal side: on a completed round it
/// joined, the recorded winner calling the loser-withdrawal path always
/// fails with `WinnerMustClaim`.
pub proof fn lemma_winner_cannot_withdraw(
    round: RoundState,
    user: UserAccount,
    round_id: u64,
    pool_balance: u64,
    reserve_floor: u64,
)
    requires
        round.is_complete,
        user.round_joined == round_id,
        round.winner == Some(user.owner),
    ensures
        process_withdrawal_result(round, user, round_id, pool_balance, reserve_floor) == Err::<
            u64,
            ErrorCode,
        >(ErrorCode::WinnerMustClaim),
{
}

/// Settlement exclusivity, claim side: a caller who is not the claim
/// ticket's recorded winner never gets a payout from the claim path.
pub proof fn lemma_non_winner_cannot_claim(
    round: RoundState,
    ticket: ClaimTicket,
    user: UserAccount,
    round_id: u64,
    pool_balance: u64,
    reserve_floor: u64,
)
    requires
        ticket.winner != user.owner,
    ensures
        claim_prize_result(round, ticket, user, round_id, pool_balance, reserve_floor) is Err,
{
}

/// Double-claim rejection: after a claim succeeds, the very same claim
/// — against the records the success produced — fails with
/// `AlreadyClaimed`, whatever the pool holds by then.
pub proof fn lemma_double_claim_rejected(
    round: RoundState,
    ticket: ClaimTicket,
    user: UserAccount,
    round_id: u64,
    pool_balance: u64,
    reserve_floor: u64,
    later_pool_balance: u64,
    later_reserve_floor: u64,
)
    requires
        claim_prize_result(round, ticket, user, round_id, pool_balance, reserve_floor) is Ok,
    ensures
        claim_prize_result(
            RoundState { prize_claimed: true, ..round },
            ClaimTicket { claimed: true, ..ticket },
            claim_user_after(user, round_id),
            round_id,
            later_pool_balance,
            later_reserve_floor,
        ) == Err::<u64, ErrorCode>(ErrorCode::AlreadyClaimed),
{
}

} // verus!
