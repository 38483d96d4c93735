//! Best-effort snapshot recording of participant balances per epoch.
//!
//! The candidate list is externally supplied and heterogeneous: entries
//! that did not parse as participant records arrive as `None` and are
//! skipped, not treated as errors. Per (participant, epoch) the
//! operation is idempotent — an epoch already recorded in the mask is
//! left alone.

use vstd::prelude::*;

use crate::state::ErrorCode;
use crate::state::RoundState;
use crate::state::UserAccount;

verus! {

/// The mask bit of an epoch index (0, 1 or 2).
pub open spec fn epoch_mask_bit(epoch_index: int) -> u8
    recommends
        0 <= epoch_index < 3,
{
    if epoch_index == 0 {
        1u8
    } else if epoch_index == 1 {
        2u8
    } else {
        4u8
    }
}

/// A participant record after snapshotting epoch `epoch_index`: if that
/// epoch's mask bit is clear, the current balance is copied into the
/// epoch's slot and the bit is set; otherwise the record is unchanged.
pub open spec fn snapshot_user_after(u: UserAccount, epoch_index: int) -> UserAccount
    recommends
        0 <= epoch_index < 3,
{
    let bit = epoch_mask_bit(epoch_index);
    if u.snapshots_recorded_mask & bit == 0 {
        UserAccount {
            snapshot_balances: if epoch_index == 0 {
                [u.balance, u.snapshot_balances[1], u.snapshot_balances[2]]
            } else if epoch_index == 1 {
                [u.snapshot_balances[0], u.balance, u.snapshot_balances[2]]
            } else {
                [u.snapshot_balances[0], u.snapshot_balances[1], u.balance]
            },
            snapshots_recorded_mask: u.snapshots_recorded_mask | bit,
            ..u
        }
    } else {
        u
    }
}

/// A candidate after the batch visits it: parse failures are skipped.
pub open spec fn snapshot_cand_after(c: Option<UserAccount>, epoch_index: int) -> Option<
    UserAccount,
> {
    match c {
        Some(u) => Some(snapshot_user_after(u, epoch_index)),
        None => None,
    }
}

/// Snapshotting the same epoch twice changes nothing the second time:
/// the first visit set the epoch's mask bit, which the second visit
/// observes.
pub proof fn lemma_snapshot_idempotent(u: UserAccount, epoch_index: int)
    requires
        0 <= epoch_index < 3,
    ensures
        snapshot_user_after(snapshot_user_after(u, epoch_index), epoch_index)
            == snapshot_user_after(u, epoch_index),
{
    let bit = epoch_mask_bit(epoch_index);
    let mask = u.snapshots_recorded_mask;
    assert((mask | bit) & bit != 0) by (bit_vector)
        requires
            bit == 1u8 || bit == 2u8 || bit == 4u8,
    ;
}

/// Record the balance of every candidate participant into the slot of
/// the round's current epoch, skipping candidates already recorded for
/// that epoch and entries that are not participant records.
pub fn take_snapshot_batch(round: &RoundState, cands: &mut Vec<Option<UserAccount>>) -> (r: Result<
    (),
    ErrorCode,
>)
    ensures
        !(1 <= round.epoch_in_round <= 3) ==> r == Err::<(), ErrorCode>(ErrorCode::InvalidEpoch)
            && *final(cands) == *old(cands),
        1 <= round.epoch_in_round <= 3 ==> {
            &&& r is Ok
            &&& final(cands)@.len() == old(cands)@.len()
            &&& forall|i: int|
                0 <= i < old(cands)@.len() ==> final(cands)@[i] == snapshot_cand_after(
                    old(cands)@[i],
                    round.epoch_in_round - 1,
                )
        },
{
    let epoch_index: usize = match round.epoch_in_round {
        1 => 0,
        2 => 1,
        3 => 2,
        _ => {
            return Err(ErrorCode::InvalidEpoch);
        },
    };
    let bit: u8 = if epoch_index == 0 {
        1
    } else if epoch_index == 1 {
        2
    } else {
        4
    };
    let ghost orig: Seq<Option<UserAccount>> = cands@;
    let mut i: usize = 0;
    while i < cands.len()
        invariant
            0 <= i <= cands.len(),
            cands@.len() == orig.len(),
            0 <= epoch_index < 3,
            epoch_index == round.epoch_in_round - 1,
            bit == epoch_mask_bit(epoch_index as int),
            forall|j: int|
                0 <= j < i ==> cands@[j] == snapshot_cand_after(orig[j], epoch_index as int),
            forall|j: int| i <= j < orig.len() ==> cands@[j] == orig[j],
        decreases cands.len() - i,
    {
        let c: Option<UserAccount> = cands[i];
        match c {
            Some(u) => {
                if u.snapshots_recorded_mask & bit == 0 {
                    let mut updated = u;
                    updated.snapshot_balances = if epoch_index == 0 {
                        [u.balance, u.snapshot_balances[1], u.snapshot_balances[2]]
                    } else if epoch_index == 1 {
                        [u.snapshot_balances[0], u.balance, u.snapshot_balances[2]]
                    } else {
                        [u.snapshot_balances[0], u.snapshot_balances[1], u.balance]
                    };
                    updated.snapshots_recorded_mask = u.snapshots_recorded_mask | bit;
                    proof {
                        assert(updated =~= snapshot_user_after(u, epoch_index as int));
                    }
                    cands[i] = Some(updated);
                }
            },
            None => {},
        }
        i = i + 1;
    }
    Ok(())
}

} // verus!
