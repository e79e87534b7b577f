//! The dispatcher's request/reply core. For each token operation the
//! dispatcher builds exactly one shard request, suspends on the transport
//! until that request's single reply (or the exchange's failure) comes back,
//! and maps the outcome for its own caller. Building the request and mapping
//! the reply are pure and live here; the host performs the send and the wait
//! and hands the decoded reply back as `Some(event)`, or `None` for a failed
//! or undecodable exchange.

use vstd::prelude::*;
use crate::ids::{ActorId, TxId};
use crate::wire::{FTStorageAction, FTStorageEvent};

verus! {

/// The one request an `increase_balance` call sends to its shard.
pub fn increase_balance_request(
    transaction_hash: TxId,
    account: ActorId,
    amount: u128,
) -> (a: FTStorageAction)
    ensures
        a == (FTStorageAction::IncreaseBalance { transaction_hash, account, amount }),
{
    FTStorageAction::IncreaseBalance { transaction_hash, account, amount }
}

/// The one request a `decrease_balance` call sends to its shard.
pub fn decrease_balance_request(
    transaction_hash: TxId,
    msg_source: ActorId,
    account: ActorId,
    amount: u128,
) -> (a: FTStorageAction)
    ensures
        a == (FTStorageAction::DecreaseBalance { transaction_hash, msg_source, account, amount }),
{
    FTStorageAction::DecreaseBalance { transaction_hash, msg_source, account, amount }
}

/// The one request an `approve` call sends to its shard.
pub fn approve_request(
    transaction_hash: TxId,
    msg_source: ActorId,
    account: ActorId,
    amount: u128,
) -> (a: FTStorageAction)
    ensures
        a == (FTStorageAction::Approve { transaction_hash, msg_source, account, amount }),
{
    FTStorageAction::Approve { transaction_hash, msg_source, account, amount }
}

/// The one request a `get_balance` call sends to its shard.
pub fn get_balance_request(account: ActorId) -> (a: FTStorageAction)
    ensures
        a == FTStorageAction::GetBalance(account),
{
    FTStorageAction::GetBalance(account)
}

/// How a mutating call reports its exchange: success exactly on a decoded
/// `Success` reply; a `Failure` reply, a wrong-shaped reply, and a failed or
/// undecodable exchange (`None`) all map to failure.
pub open spec fn spec_mutation_result(reply: Option<FTStorageEvent>) -> Result<(), ()> {
    if reply == Some(FTStorageEvent::Success) {
        Ok(())
    } else {
        Err(())
    }
}

/// Maps the reply of an `IncreaseBalance`, `DecreaseBalance` or `Approve`
/// exchange to the dispatcher caller's plain success/failure result.
pub fn mutation_result(reply: Option<FTStorageEvent>) -> (r: Result<(), ()>)
    ensures
        r == spec_mutation_result(reply),
{
    match reply {
        Some(FTStorageEvent::Success) => Ok(()),
        _ => Err(()),
    }
}

/// How a `get_balance` call reads its exchange: queries never fail, so
/// anything but a decoded `Balance` reply degrades to the default of zero.
pub open spec fn spec_balance_result(reply: Option<FTStorageEvent>) -> u128 {
    match reply {
        Some(FTStorageEvent::Balance(amount)) => amount,
        _ => 0,
    }
}

/// Maps the reply of a `GetBalance` exchange to the amount handed to the
/// dispatcher's caller.
pub fn balance_result(reply: Option<FTStorageEvent>) -> (r: u128)
    ensures
        r == spec_balance_result(reply),
{
    match reply {
        Some(FTStorageEvent::Balance(amount)) => amount,
        _ => 0,
    }
}

} // verus!
