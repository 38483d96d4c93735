//! Protocol registry lifecycle: creation, prize seeding and teardown.

use vstd::prelude::*;

use crate::state::ErrorCode;
use crate::state::Identity;
use crate::state::ProtocolState;

verus! {

/// Create the protocol registry with the given admin and validator
/// identities, empty pool and no liability.
pub fn initialize(admin: Identity, validator: Identity) -> (p: ProtocolState)
    ensures
        p == (ProtocolState {
            admin,
            validator,
            current_round: 0,
            prize_seed_amount: 0,
            total_unclaimed_prizes: 0,
        }),
{
    ProtocolState { admin, validator, current_round: 0, prize_seed_amount: 0, total_unclaimed_prizes: 0 }
}

/// Record a prize seeding of `amount` into the pool. On success the
/// caller owes a matching fund transfer of `amount` into the escrow
/// pool; on failure nothing changes and nothing is owed.
pub fn seed_prize(protocol: &mut ProtocolState, amount: u64) -> (r: Result<(), ErrorCode>)
    ensures
        amount == 0 ==> r == Err::<(), ErrorCode>(ErrorCode::InvalidAmount),
        amount > 0 && old(protocol).prize_seed_amount + amount > u64::MAX ==> r == Err::<
            (),
            ErrorCode,
        >(ErrorCode::ArithmeticOverflow),
        amount > 0 && old(protocol).prize_seed_amount + amount <= u64::MAX ==> r is Ok
            && *final(protocol) == (ProtocolState {
            prize_seed_amount: (old(protocol).prize_seed_amount + amount) as u64,
            ..*old(protocol)
        }),
        r is Err ==> *final(protocol) == *old(protocol),
{
    if amount == 0 {
        return Err(ErrorCode::InvalidAmount);
    }
    match protocol.prize_seed_amount.checked_add(amount) {
        Some(total) => {
            protocol.prize_seed_amount = total;
            Ok(())
        },
        None => Err(ErrorCode::ArithmeticOverflow),
    }
}

/// Admin-only teardown guard: the registry may be destroyed only while
/// no issued prize is still unclaimed.
pub fn close_protocol_state(protocol: &ProtocolState) -> (r: Result<(), ErrorCode>)
    ensures
        protocol.total_unclaimed_prizes != 0 ==> r == Err::<(), ErrorCode>(
            ErrorCode::UnclaimedPrizesExist,
        ),
        protocol.total_unclaimed_prizes == 0 ==> r is Ok,
{
    if protocol.total_unclaimed_prizes != 0 {
        return Err(ErrorCode::UnclaimedPrizesExist);
    }
    Ok(())
}

} // verus!
