//! Mathematical model of one ledger shard: its abstract state and, for every
//! request, the exact state transition and reply. The executable shard in
//! [`crate::storage`] is proved to follow these transitions step by step.

use vstd::prelude::*;
use crate::ids::{ActorId, TxId};
use crate::wire::{FTStorageAction, FTStorageEvent, FTStorageState, FTStorageStateReply};

verus! {

/// Abstract state of a ledger shard.
///
/// `balances` and `approvals` are total maps: an account that was never
/// touched holds zero, and a pair with no standing approval allows zero.
/// `transaction_status` is partial: its domain is exactly the set of
/// transaction identifiers whose outcome is currently recorded.
#[verifier::ext_equal]
pub ghost struct ShardModel {
    pub ft_logic_id: ActorId,
    pub transaction_status: Map<TxId, bool>,
    pub balances: Map<ActorId, u128>,
    pub approvals: Map<(ActorId, ActorId), u128>,
}

/// What a shard does with one incoming request.
#[derive(Clone, Copy, Debug)]
pub enum HandleResult {
    /// Send `event` back to the requester; if `schedule_clear` carries a
    /// transaction id, also schedule the deferred cleanup of its record,
    /// [`crate::DELAY`] ticks from now.
    Reply { event: FTStorageEvent, schedule_clear: Option<TxId> },
    /// Internal maintenance: no reply is produced.
    Silent,
    /// The request was not authorized: processing aborts, no state changes,
    /// no reply is produced.
    Fatal,
}

/// The shard state right after creation by `ft_logic_id`.
pub open spec fn initial_model(ft_logic_id: ActorId) -> ShardModel {
    ShardModel {
        ft_logic_id,
        transaction_status: Map::empty(),
        balances: Map::new(|a: ActorId| true, |a: ActorId| 0u128),
        approvals: Map::new(|p: (ActorId, ActorId)| true, |p: (ActorId, ActorId)| 0u128),
    }
}

/// Saturating addition on amounts: caps at the largest representable value.
pub open spec fn sat_add(a: u128, b: u128) -> u128 {
    if a + b > u128::MAX {
        u128::MAX
    } else {
        (a + b) as u128
    }
}

/// Reply replayed for an already-recorded transaction. No cleanup is
/// scheduled: the one scheduled when the record was first written stands.
pub open spec fn replay_reply(recorded: bool) -> HandleResult {
    HandleResult::Reply {
        event: if recorded {
            FTStorageEvent::Success
        } else {
            FTStorageEvent::Failure
        },
        schedule_clear: None,
    }
}

/// Transition for `IncreaseBalance`: authorization, replay check, then a
/// saturating credit recorded as a success.
pub open spec fn increase_step(
    m: ShardModel,
    caller: ActorId,
    transaction_hash: TxId,
    account: ActorId,
    amount: u128,
) -> (ShardModel, HandleResult) {
    if caller != m.ft_logic_id {
        (m, HandleResult::Fatal)
    } else if m.transaction_status.contains_key(transaction_hash) {
        (m, replay_reply(m.transaction_status[transaction_hash]))
    } else {
        (
            ShardModel {
                transaction_status: m.transaction_status.insert(transaction_hash, true),
                balances: m.balances.insert(
                    account,
                    sat_add(m.balances[account], amount),
                ),
                ..m
            },
            HandleResult::Reply {
                event: FTStorageEvent::Success,
                schedule_clear: Some(transaction_hash),
            },
        )
    }
}

/// Whether a fresh debit of `amount` from `account`, requested by
/// `msg_source`, is allowed to go through on state `m`.
pub open spec fn can_debit(
    m: ShardModel,
    msg_source: ActorId,
    account: ActorId,
    amount: u128,
) -> bool {
    m.balances[account] >= amount
        && (msg_source == account || m.approvals[(account, msg_source)] >= amount)
}

/// Transition for `DecreaseBalance`: authorization, replay check, then either
/// a direct debit, a delegated debit consuming the allowance atomically, or a
/// recorded failure that leaves balances and approvals untouched.
pub open spec fn decrease_step(
    m: ShardModel,
    caller: ActorId,
    transaction_hash: TxId,
    msg_source: ActorId,
    account: ActorId,
    amount: u128,
) -> (ShardModel, HandleResult) {
    if caller != m.ft_logic_id {
        (m, HandleResult::Fatal)
    } else if m.transaction_status.contains_key(transaction_hash) {
        (m, replay_reply(m.transaction_status[transaction_hash]))
    } else if msg_source == account && m.balances[account] >= amount {
        (
            ShardModel {
                transaction_status: m.transaction_status.insert(transaction_hash, true),
                balances: m.balances.insert(
                    account,
                    (m.balances[account] - amount) as u128,
                ),
                ..m
            },
            HandleResult::Reply {
                event: FTStorageEvent::Success,
                schedule_clear: Some(transaction_hash),
            },
        )
    } else if msg_source != account && m.balances[account] >= amount
        && m.approvals[(account, msg_source)] >= amount {
        (
            ShardModel {
                transaction_status: m.transaction_status.insert(transaction_hash, true),
                balances: m.balances.insert(
                    account,
                    (m.balances[account] - amount) as u128,
                ),
                approvals: m.approvals.insert(
                    (account, msg_source),
                    (m.approvals[(account, msg_source)] - amount) as u128,
                ),
                ..m
            },
            HandleResult::Reply {
                event: FTStorageEvent::Success,
                schedule_clear: Some(transaction_hash),
            },
        )
    } else {
        (
            ShardModel {
                transaction_status: m.transaction_status.insert(transaction_hash, false),
                ..m
            },
            HandleResult::Reply {
                event: FTStorageEvent::Failure,
                schedule_clear: Some(transaction_hash),
            },
        )
    }
}

/// Transition for `Approve`: authorization, replay check, then a saturating
/// raise of the allowance `msg_source` grants to `account`.
///
/// Note the asymmetry, a deliberate quirk of the protocol: the transaction
/// log is consulted for replay but no outcome is recorded, so a duplicate
/// approval under a fresh (or already purged) identifier applies again.
pub open spec fn approve_step(
    m: ShardModel,
    caller: ActorId,
    transaction_hash: TxId,
    msg_source: ActorId,
    account: ActorId,
    amount: u128,
) -> (ShardModel, HandleResult) {
    if caller != m.ft_logic_id {
        (m, HandleResult::Fatal)
    } else if m.transaction_status.contains_key(transaction_hash) {
        (m, replay_reply(m.transaction_status[transaction_hash]))
    } else {
        (
            ShardModel {
                approvals: m.approvals.insert(
                    (msg_source, account),
                    sat_add(m.approvals[(msg_source, account)], amount),
                ),
                ..m
            },
            HandleResult::Reply {
                event: FTStorageEvent::Success,
                schedule_clear: Some(transaction_hash),
            },
        )
    }
}

/// Transition for the self-addressed `Clear`: drop the record, whatever the
/// outcome was, reopening the identifier for fresh use.
pub open spec fn clear_step(m: ShardModel, transaction_hash: TxId) -> ShardModel {
    ShardModel { transaction_status: m.transaction_status.remove(transaction_hash), ..m }
}

/// Transition of the whole shard for one incoming request.
pub open spec fn handle_step(
    m: ShardModel,
    caller: ActorId,
    action: FTStorageAction,
) -> (ShardModel, HandleResult) {
    match action {
        FTStorageAction::GetBalance(account) => (
            m,
            HandleResult::Reply {
                event: FTStorageEvent::Balance(m.balances[account]),
                schedule_clear: None,
            },
        ),
        FTStorageAction::IncreaseBalance { transaction_hash, account, amount } =>
            increase_step(m, caller, transaction_hash, account, amount),
        FTStorageAction::DecreaseBalance { transaction_hash, msg_source, account, amount } =>
            decrease_step(m, caller, transaction_hash, msg_source, account, amount),
        FTStorageAction::Approve { transaction_hash, msg_source, account, amount } =>
            approve_step(m, caller, transaction_hash, msg_source, account, amount),
        FTStorageAction::Clear(transaction_hash) => (
            clear_step(m, transaction_hash),
            HandleResult::Silent,
        ),
    }
}

/// Reply to a state query: balances are readable by anyone.
pub open spec fn state_step(m: ShardModel, query: FTStorageState) -> FTStorageStateReply {
    match query {
        FTStorageState::Balance(account) => FTStorageStateReply::Balance(m.balances[account]),
    }
}

/// The event a result carries back to the requester, if any.
pub open spec fn reply_event(r: HandleResult) -> Option<FTStorageEvent> {
    match r {
        HandleResult::Reply { event, schedule_clear } => Some(event),
        HandleResult::Silent => None,
        HandleResult::Fatal => None,
    }
}

} // verus!
