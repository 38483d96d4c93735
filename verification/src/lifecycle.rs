//! Round lifecycle: time-driven epoch advance and finalization.
//!
//! The same deterministic step is run from two trigger paths — an
//! implicit check inside deposit processing and the permissionless
//! scheduler `crank` — so no single party's inaction can stall a round.

use vstd::prelude::*;

use crate::state::ErrorCode;
use crate::state::ProtocolState;
use crate::state::RoundState;
use crate::state::UserAccount;
use crate::state::round_wf;
use crate::winner::find_winner;
use crate::winner::spec_find_winner;

verus! {

/// The epoch a round should be in at time `now_ms`:
/// `min(floor(elapsed / duration) + 1, 3)`, never below 1.
pub open spec fn spec_target_epoch(start_ms: u64, now_ms: u64, duration_ms: u64) -> u8
    recommends
        duration_ms > 0,
{
    let elapsed: int = if now_ms >= start_ms {
        now_ms - start_ms
    } else {
        0
    };
    let passed: int = elapsed / (duration_ms as int);
    if passed + 1 < 3 {
        (passed + 1) as u8
    } else {
        3u8
    }
}

/// Compute the epoch a round should be in at time `now_ms`.
pub fn target_epoch(start_ms: u64, now_ms: u64, duration_ms: u64) -> (e: u8)
    requires
        duration_ms > 0,
    ensures
        e == spec_target_epoch(start_ms, now_ms, duration_ms),
        1 <= e <= 3,
{
    let elapsed: u64 = if now_ms >= start_ms {
        now_ms - start_ms
    } else {
        0
    };
    let passed: u64 = elapsed / duration_ms;
    if passed >= 2 {
        3
    } else {
        (passed + 1) as u8
    }
}

/// Whether the third epoch's window has elapsed, so a round that sold
/// tickets is eligible for finalization.
pub open spec fn spec_finalize_time_reached(start_ms: u64, now_ms: u64, duration_ms: u64) -> bool {
    now_ms >= start_ms + 3 * duration_ms
}

/// The pseudo-random draw seed of the reference design, combined from
/// host-clock counters with wraparound multiply-add:
/// `(slot * timestamp + epoch) mod 2^64`. This is publicly predictable,
/// a placeholder and not a secure draw.
pub open spec fn spec_derive_seed(slot: u64, unix_timestamp_s: u64, clock_epoch: u64) -> u64 {
    (((slot * unix_timestamp_s) + clock_epoch) % 0x1_0000_0000_0000_0000) as u64
}

/// Combine the host clock's slot, timestamp and epoch counters into the
/// draw seed.
pub fn derive_seed(slot: u64, unix_timestamp_s: u64, clock_epoch: u64) -> (s: u64)
    ensures
        s == spec_derive_seed(slot, unix_timestamp_s, clock_epoch),
{
    proof {
        assert((slot as u128) * (unix_timestamp_s as u128) + (clock_epoch as u128)
            < 0x1_0000_0000_0000_0000_0000_0000_0000_0000) by (nonlinear_arith)
            requires
                slot <= 0xffff_ffff_ffff_ffffu64,
                unix_timestamp_s <= 0xffff_ffff_ffff_ffffu64,
                clock_epoch <= 0xffff_ffff_ffff_ffffu64,
        ;
    }
    let wide: u128 = (slot as u128) * (unix_timestamp_s as u128) + (clock_epoch as u128);
    (wide % 0x1_0000_0000_0000_0000u128) as u64
}

/// The round after one lifecycle step at time `now_ms` with draw seed
/// `seed`: a completed round is untouched; otherwise the epoch advances
/// to its target (forward only), and once the third epoch's window has
/// elapsed on a round with tickets sold, the drawn ticket's owner among
/// the round's own participants — stale candidate records never match —
/// becomes the winner and the round completes, taking the prize pool as
/// its prize. If the draw matches no candidate the round silently stays
/// open.
pub open spec fn lifecycle_round_after(
    r: RoundState,
    prize_seed: u64,
    now_ms: u64,
    duration_ms: u64,
    seed: u64,
    cands: Seq<Option<UserAccount>>,
) -> RoundState {
    if r.is_complete {
        r
    } else {
        let target = spec_target_epoch(r.start_epoch, now_ms, duration_ms);
        let r1 = RoundState {
            epoch_in_round: if target > r.epoch_in_round {
                target
            } else {
                r.epoch_in_round
            },
            ..r
        };
        if r1.epoch_in_round >= 3 && spec_finalize_time_reached(r1.start_epoch, now_ms, duration_ms)
            && r1.total_tickets_sold > 0 {
            let t = (seed % r1.total_tickets_sold) as u64;
            match spec_find_winner(cands, r1.round_id, t) {
                Some(w) => RoundState {
                    winner: Some(w),
                    winning_ticket: t,
                    total_prize_lamports: prize_seed,
                    end_epoch: now_ms,
                    is_complete: true,
                    ..r1
                },
                None => r1,
            }
        } else {
            r1
        }
    }
}

/// Whether a lifecycle step at these inputs finalizes the round.
pub open spec fn lifecycle_finalizes(
    r: RoundState,
    prize_seed: u64,
    now_ms: u64,
    duration_ms: u64,
    seed: u64,
    cands: Seq<Option<UserAccount>>,
) -> bool {
    !r.is_complete && lifecycle_round_after(r, prize_seed, now_ms, duration_ms, seed, cands)
        .is_complete
}

/// Run one lifecycle step against the round record. Returns whether this
/// step finalized the round.
pub fn run_lifecycle(
    round: &mut RoundState,
    prize_seed: u64,
    now_ms: u64,
    duration_ms: u64,
    seed: u64,
    cands: &Vec<Option<UserAccount>>,
) -> (finalized: bool)
    requires
        duration_ms > 0,
    ensures
        *final(round) == lifecycle_round_after(
            *old(round),
            prize_seed,
            now_ms,
            duration_ms,
            seed,
            cands@,
        ),
        finalized == lifecycle_finalizes(
            *old(round),
            prize_seed,
            now_ms,
            duration_ms,
            seed,
            cands@,
        ),
{
    if round.is_complete {
        return false;
    }
    let target = target_epoch(round.start_epoch, now_ms, duration_ms);
    if target > round.epoch_in_round {
        round.epoch_in_round = target;
    }
    if round.epoch_in_round >= 3 {
        let due = (now_ms as u128) >= (round.start_epoch as u128) + 3 * (duration_ms as u128);
        if due && round.total_tickets_sold > 0 {
            let winning_ticket = seed % round.total_tickets_sold;
            match find_winner(cands, round.round_id, winning_ticket) {
                Some(w) => {
                    round.winner = Some(w);
                    round.winning_ticket = winning_ticket;
                    round.total_prize_lamports = prize_seed;
                    round.end_epoch = now_ms;
                    round.is_complete = true;
                    return true;
                },
                None => {
                    return false;
                },
            }
        }
    }
    false
}

/// Permissionless scheduler: advance the epoch and finalize the round
/// purely from elapsed wall-clock time, an idempotent no-op once the
/// round is complete. Always succeeds; the clock counters it is handed
/// determine the draw seed.
pub fn crank(
    protocol: &ProtocolState,
    round: &mut RoundState,
    cands: &Vec<Option<UserAccount>>,
    duration_ms: u64,
    slot: u64,
    unix_timestamp_s: u64,
    clock_epoch: u64,
) -> (r: Result<(), ErrorCode>)
    requires
        duration_ms > 0,
        1000 * unix_timestamp_s <= u64::MAX,
    ensures
        *final(round) == lifecycle_round_after(
            *old(round),
            protocol.prize_seed_amount,
            (1000 * unix_timestamp_s) as u64,
            duration_ms,
            spec_derive_seed(slot, unix_timestamp_s, clock_epoch),
            cands@,
        ),
        r is Ok,
{
    let now_ms: u64 = unix_timestamp_s * 1000;
    let seed = derive_seed(slot, unix_timestamp_s, clock_epoch);
    run_lifecycle(round, protocol.prize_seed_amount, now_ms, duration_ms, seed, cands);
    Ok(())
}

/// Admin-gated manual epoch bump, refused once the round already reached
/// the third epoch.
pub fn advance_epoch(round: &mut RoundState) -> (r: Result<(), ErrorCode>)
    ensures
        old(round).epoch_in_round >= 3 ==> r == Err::<(), ErrorCode>(ErrorCode::InvalidEpoch)
            && *final(round) == *old(round),
        old(round).epoch_in_round < 3 ==> r is Ok && *final(round) == (RoundState {
            epoch_in_round: (old(round).epoch_in_round + 1) as u8,
            ..*old(round)
        }),
{
    if round.epoch_in_round >= 3 {
        return Err(ErrorCode::InvalidEpoch);
    }
    round.epoch_in_round = round.epoch_in_round + 1;
    Ok(())
}

/// Create a round in its first epoch and make it the protocol's current
/// round.
pub fn init_round(protocol: &mut ProtocolState, round_id: u64, start_epoch: u64) -> (round:
    RoundState)
    ensures
        *final(protocol) == (ProtocolState { current_round: round_id, ..*old(protocol) }),
        round == (RoundState {
            round_id,
            epoch_in_round: 1,
            start_epoch,
            end_epoch: 0,
            total_staked_lamports: 0,
            total_prize_lamports: 0,
            total_tickets_sold: 0,
            winner: None,
            winning_ticket: 0,
            is_complete: false,
            prize_claimed: false,
        }),
        round_wf(round),
{
    protocol.current_round = round_id;
    RoundState {
        round_id,
        epoch_in_round: 1,
        start_epoch,
        end_epoch: 0,
        total_staked_lamports: 0,
        total_prize_lamports: 0,
        total_tickets_sold: 0,
        winner: None,
        winning_ticket: 0,
        is_complete: false,
        prize_claimed: false,
    }
}

} // verus!
