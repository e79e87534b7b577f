//! A sharded fungible-token ledger core: an idempotent ledger shard that owns
//! balances and approvals for one partition of accounts, and the pure
//! request/reply logic of the dispatcher that talks to it.
//!
//! The shard processes one request at a time. Every mutating request carries a
//! transaction identifier; its outcome is recorded so that a redelivered
//! request replays the recorded outcome instead of re-executing the mutation.
//! Records are purged by a self-scheduled cleanup after a fixed delay, so the
//! idempotency window is bounded in time.

pub mod ids;
pub mod laws;
pub mod logic;
pub mod model;
pub mod storage;
pub mod tables;
pub mod wire;

use vstd::prelude::*;

verus! {

/// Scheduling delay, in transport ticks, between first processing a
/// transaction and the self-addressed cleanup that purges its record.
pub const DELAY: u32 = 600_000;

} // verus!
