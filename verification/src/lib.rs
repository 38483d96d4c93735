//! A recurring, time-boxed lottery: participants buy fixed-price tickets
//! during a three-epoch round, a winner is drawn pseudo-randomly weighted
//! by ticket count, and funds settle afterward — the winner claims stake
//! plus prize, losers reclaim their stake.
//!
//! The library is the round lifecycle state machine and the settlement
//! accounting, verified over plain record values. The ledger substrate —
//! record storage, address derivation, signature checks and raw fund
//! transfers — is a collaborator outside the library: callers load the
//! records an operation names, invoke it, and persist the records and the
//! returned payout atomically, all-or-nothing.

pub mod deposit;
pub mod laws;
pub mod lifecycle;
pub mod registry;
pub mod settle;
pub mod snapshot;
pub mod state;
pub mod winner;

use vstd::prelude::*;

verus! {

/// Fixed ticket price of the reference configuration, in lamports
/// (0.01 SOL). Operations take the price as a parameter so another
/// deployment can configure it.
pub const TICKET_PRICE_LAMPORTS: u64 = 10_000_000;

/// Epoch duration of the reference configuration, in milliseconds
/// (two minutes).
pub const EPOCH_DURATION_MS: u64 = 120_000;

} // verus!
