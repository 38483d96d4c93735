//! Deposit processing and mid-round withdrawal requests.
//!
//! A deposit first runs the time-driven lifecycle step, so the round it
//! observes is current; a round found complete keeps the lifecycle's
//! side effects while the deposit itself is refused. Every other refusal
//! is transactional: no record changes at all.

use vstd::prelude::*;

use crate::lifecycle::derive_seed;
use crate::lifecycle::lifecycle_round_after;
use crate::lifecycle::run_lifecycle;
use crate::lifecycle::spec_derive_seed;
use crate::state::ErrorCode;
use crate::state::Identity;
use crate::state::ProtocolState;
use crate::state::RoundState;
use crate::state::UserAccount;

verus! {

/// A participant record with its live per-round state cleared, as
/// happens when a deposit arrives tagged with a round the record did not
/// join.
pub open spec fn deposit_user_reset(u: UserAccount) -> UserAccount {
    UserAccount {
        balance: 0,
        ticket_start: 0,
        ticket_end: 0,
        snapshot_balances: [0u64, 0u64, 0u64],
        snapshots_recorded_mask: 0,
        pending_withdrawal_amount: 0,
        pending_withdrawal_round: 0,
        ..u
    }
}

/// The balance a deposit builds on: zero when the record's live state
/// belongs to another round and is about to be reset.
pub open spec fn deposit_effective_balance(u: UserAccount, rid: u64) -> u64 {
    if u.round_joined != rid && u.round_joined != 0 {
        0
    } else {
        u.balance
    }
}

/// The participant record after a successful deposit of `amount` buying
/// `num` tickets numbered from `start`: stale state is reset, the ticket
/// range starts fresh at `start` when no tickets were held, or keeps its
/// start and extends its end otherwise, and the record is tagged with
/// round `rid`.
pub open spec fn deposit_user_update(
    u: UserAccount,
    owner: Identity,
    rid: u64,
    start: u64,
    num: u64,
    amount: u64,
) -> UserAccount
    recommends
        num >= 1,
        start + num <= u64::MAX,
        deposit_effective_balance(u, rid) + amount <= u64::MAX,
{
    let u1 = if u.round_joined != rid && u.round_joined != 0 {
        deposit_user_reset(u)
    } else {
        u
    };
    UserAccount {
        owner,
        balance: (u1.balance + amount) as u64,
        ticket_start: if u1.balance == 0 {
            start
        } else {
            u1.ticket_start
        },
        ticket_end: (start + num - 1) as u64,
        round_joined: rid,
        ..u1
    }
}

/// The exact outcome of a deposit: which refusal it earns, or success.
/// The lifecycle step runs before the round's state is judged, so
/// completion and the deposits-closed boundary are decided on the
/// advanced round.
pub open spec fn deposit_result(
    protocol: ProtocolState,
    round: RoundState,
    user: UserAccount,
    amount: u64,
    ticket_price: u64,
    now_ms: u64,
    duration_ms: u64,
    seed: u64,
    cands: Seq<Option<UserAccount>>,
) -> Result<(), ErrorCode>
    recommends
        ticket_price > 0,
{
    if amount == 0 {
        Err(ErrorCode::InvalidAmount)
    } else if amount % ticket_price != 0 {
        Err(ErrorCode::InvalidTicketAmount)
    } else if amount / ticket_price == 0 {
        Err(ErrorCode::InvalidAmount)
    } else if round.round_id != protocol.current_round {
        Err(ErrorCode::InvalidRoundAccount)
    } else {
        let lr = lifecycle_round_after(
            round,
            protocol.prize_seed_amount,
            now_ms,
            duration_ms,
            seed,
            cands,
        );
        if lr.is_complete {
            Err(ErrorCode::RoundComplete)
        } else if lr.epoch_in_round >= 3 {
            Err(ErrorCode::DepositsClosedEpoch3)
        } else if lr.total_tickets_sold + amount / ticket_price > u64::MAX {
            Err(ErrorCode::ArithmeticOverflow)
        } else if lr.total_staked_lamports + amount > u64::MAX {
            Err(ErrorCode::ArithmeticOverflow)
        } else if deposit_effective_balance(user, protocol.current_round) + amount > u64::MAX {
            Err(ErrorCode::ArithmeticOverflow)
        } else {
            Ok(())
        }
    }
}

/// Everything a deposit guarantees about the records it touches, as a
/// relation between their values before (`r0`, `u0`) and after (`r1`,
/// `u1`) the call: the result is exactly `deposit_result`; a
/// `RoundComplete` refusal still persists the lifecycle step's epoch
/// advance and finalization; every other refusal changes nothing; and
/// success applies the lifecycle step, sells `amount / ticket_price`
/// tickets in a contiguous range starting at the advanced round's ticket
/// total, and credits the participant.
pub open spec fn deposit_post(
    protocol: ProtocolState,
    r0: RoundState,
    u0: UserAccount,
    r1: RoundState,
    u1: UserAccount,
    r: Result<(), ErrorCode>,
    depositor: Identity,
    amount: u64,
    ticket_price: u64,
    now_ms: u64,
    duration_ms: u64,
    seed: u64,
    cands: Seq<Option<UserAccount>>,
) -> bool {
    let lr = lifecycle_round_after(
        r0,
        protocol.prize_seed_amount,
        now_ms,
        duration_ms,
        seed,
        cands,
    );
    let num = amount / ticket_price;
    &&& r == deposit_result(
        protocol,
        r0,
        u0,
        amount,
        ticket_price,
        now_ms,
        duration_ms,
        seed,
        cands,
    )
    &&& r == Err::<(), ErrorCode>(ErrorCode::RoundComplete) ==> r1 == lr && u1 == u0
    &&& r is Err && r != Err::<(), ErrorCode>(ErrorCode::RoundComplete) ==> r1 == r0 && u1 == u0
    &&& r is Ok ==> {
        &&& r1 == (RoundState {
            total_tickets_sold: (lr.total_tickets_sold + num) as u64,
            total_staked_lamports: (lr.total_staked_lamports + amount) as u64,
            ..lr
        })
        &&& u1 == deposit_user_update(
            u0,
            depositor,
            protocol.current_round,
            lr.total_tickets_sold,
            num,
            amount,
        )
    }
}

/// Ticket issuance: run the lifecycle step, then — unless the round is
/// complete or its third epoch has begun — move the depositor's `amount`
/// into escrow (the caller owes that fund transfer on success) and
/// assign the next `amount / ticket_price` ticket numbers to the
/// depositor as one contiguous range.
pub fn deposit(
    protocol: &ProtocolState,
    round: &mut RoundState,
    user: &mut UserAccount,
    cands: &Vec<Option<UserAccount>>,
    depositor: Identity,
    amount: u64,
    ticket_price: u64,
    duration_ms: u64,
    slot: u64,
    unix_timestamp_s: u64,
    clock_epoch: u64,
) -> (r: Result<(), ErrorCode>)
    requires
        ticket_price > 0,
        duration_ms > 0,
        1000 * unix_timestamp_s <= u64::MAX,
    ensures
        deposit_post(
            *protocol,
            *old(round),
            *old(user),
            *final(round),
            *final(user),
            r,
            depositor,
            amount,
            ticket_price,
            (1000 * unix_timestamp_s) as u64,
            duration_ms,
            spec_derive_seed(slot, unix_timestamp_s, clock_epoch),
            cands@,
        ),
        amount > 0 && amount % ticket_price != 0 ==> r == Err::<(), ErrorCode>(
            ErrorCode::InvalidTicketAmount,
        ),
{
    if amount == 0 {
        return Err(ErrorCode::InvalidAmount);
    }
    if amount % ticket_price != 0 {
        return Err(ErrorCode::InvalidTicketAmount);
    }
    let num_tickets = amount / ticket_price;
    if num_tickets == 0 {
        return Err(ErrorCode::InvalidAmount);
    }
    if round.round_id != protocol.current_round {
        return Err(ErrorCode::InvalidRoundAccount);
    }
    let saved: RoundState = *round;
    let now_ms: u64 = unix_timestamp_s * 1000;
    let seed = derive_seed(slot, unix_timestamp_s, clock_epoch);
    run_lifecycle(round, protocol.prize_seed_amount, now_ms, duration_ms, seed, cands);
    if round.is_complete {
        return Err(ErrorCode::RoundComplete);
    }
    if round.epoch_in_round >= 3 {
        *round = saved;
        return Err(ErrorCode::DepositsClosedEpoch3);
    }
    let new_tickets = match round.total_tickets_sold.checked_add(num_tickets) {
        Some(v) => v,
        None => {
            *round = saved;
            return Err(ErrorCode::ArithmeticOverflow);
        },
    };
    let new_staked = match round.total_staked_lamports.checked_add(amount) {
        Some(v) => v,
        None => {
            *round = saved;
            return Err(ErrorCode::ArithmeticOverflow);
        },
    };
    let stale = user.round_joined != protocol.current_round && user.round_joined != 0;
    let effective_balance: u64 = if stale {
        0
    } else {
        user.balance
    };
    let new_balance = match effective_balance.checked_add(amount) {
        Some(v) => v,
        None => {
            *round = saved;
            return Err(ErrorCode::ArithmeticOverflow);
        },
    };
    let ticket_start = round.total_tickets_sold;
    let ticket_end = ticket_start + num_tickets - 1;
    round.total_tickets_sold = new_tickets;
    round.total_staked_lamports = new_staked;
    user.owner = depositor;
    if stale {
        user.balance = 0;
        user.ticket_start = 0;
        user.ticket_end = 0;
        user.snapshot_balances = [0, 0, 0];
        user.snapshots_recorded_mask = 0;
        user.pending_withdrawal_amount = 0;
        user.pending_withdrawal_round = 0;
    }
    if effective_balance == 0 {
        user.ticket_start = ticket_start;
        user.ticket_end = ticket_end;
    } else {
        user.ticket_end = ticket_end;
    }
    user.balance = new_balance;
    user.round_joined = protocol.current_round;
    proof {
        assert(*user =~= deposit_user_update(
            *old(user),
            depositor,
            protocol.current_round,
            ticket_start,
            num_tickets,
            amount,
        ));
    }
    Ok(())
}

/// The participant record after a granted mid-round withdrawal request:
/// `amount` moves from the live balance into the pending bucket, the
/// snapshot history is forfeited, and the request is tagged with the
/// current round.
pub open spec fn request_withdrawal_update(u: UserAccount, current_round: u64, amount: u64) -> UserAccount
    recommends
        amount <= u.balance,
        u.pending_withdrawal_amount + amount <= u64::MAX,
{
    UserAccount {
        balance: (u.balance - amount) as u64,
        snapshots_recorded_mask: 0,
        pending_withdrawal_amount: (u.pending_withdrawal_amount + amount) as u64,
        pending_withdrawal_round: current_round,
        ..u
    }
}

/// A voluntary mid-round forfeit: move `amount` of the live balance into
/// the pending-withdrawal bucket, clearing the snapshot history and
/// tagging the request with the current round. The ticket range is left
/// as it stands, so the participant stays inside the winner-eligible
/// range — a noted gap of this design, reproduced faithfully.
pub fn request_withdrawal(user: &mut UserAccount, current_round: u64, amount: u64) -> (r: Result<
    (),
    ErrorCode,
>)
    ensures
        amount == 0 ==> r == Err::<(), ErrorCode>(ErrorCode::InvalidAmount),
        amount > 0 && old(user).balance < amount ==> r == Err::<(), ErrorCode>(
            ErrorCode::InvalidAmount,
        ),
        amount > 0 && old(user).balance >= amount && old(user).pending_withdrawal_amount + amount
            > u64::MAX ==> r == Err::<(), ErrorCode>(ErrorCode::ArithmeticOverflow),
        amount > 0 && old(user).balance >= amount && old(user).pending_withdrawal_amount + amount
            <= u64::MAX ==> r is Ok && *final(user) == request_withdrawal_update(
            *old(user),
            current_round,
            amount,
        ),
        r is Err ==> *final(user) == *old(user),
{
    if amount == 0 {
        return Err(ErrorCode::InvalidAmount);
    }
    if user.balance < amount {
        return Err(ErrorCode::InvalidAmount);
    }
    let new_pending = match user.pending_withdrawal_amount.checked_add(amount) {
        Some(v) => v,
        None => {
            return Err(ErrorCode::ArithmeticOverflow);
        },
    };
    user.snapshots_recorded_mask = 0;
    user.balance = user.balance - amount;
    user.pending_withdrawal_amount = new_pending;
    user.pending_withdrawal_round = current_round;
    Ok(())
}

} // verus!
