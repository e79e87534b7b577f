//! The guarantees of the mutation protocol, stated over the model
//! transitions of [`crate::model`] and proved once and for all. Because
//! every handler of [`crate::storage::FTStorage`] is proved to perform
//! exactly those transitions, each law carries over to the executable shard.

use vstd::prelude::*;
use crate::ids::{ActorId, TxId};
use crate::model::{
    approve_step, can_debit, clear_step, decrease_step, handle_step, increase_step,
    replay_reply, reply_event, sat_add, HandleResult, ShardModel,
};
use crate::wire::{FTStorageAction, FTStorageEvent};

verus! {

/// Idempotency of `IncreaseBalance`: issuing the same request twice with one
/// transaction identifier leaves the state exactly as after the first issue,
/// and the requester sees the same reply event.
pub proof fn lemma_increase_idempotent(
    m: ShardModel,
    caller: ActorId,
    transaction_hash: TxId,
    account: ActorId,
    amount: u128,
)
    ensures
        ({
            let (m1, r1) = increase_step(m, caller, transaction_hash, account, amount);
            let (m2, r2) = increase_step(m1, caller, transaction_hash, account, amount);
            m2 == m1 && reply_event(r2) == reply_event(r1)
        }),
{
}

/// Idempotency of `DecreaseBalance`: a redelivered request replays the
/// recorded outcome — without re-checking funds — and changes nothing.
pub proof fn lemma_decrease_idempotent(
    m: ShardModel,
    caller: ActorId,
    transaction_hash: TxId,
    msg_source: ActorId,
    account: ActorId,
    amount: u128,
)
    ensures
        ({
            let (m1, r1) = decrease_step(
                m, caller, transaction_hash, msg_source, account, amount);
            let (m2, r2) = decrease_step(
                m1, caller, transaction_hash, msg_source, account, amount);
            m2 == m1 && reply_event(r2) == reply_event(r1)
        }),
{
}

/// While a transaction identifier is recorded, every mutating request that
/// carries it — `Approve` included — replays the recorded outcome and leaves
/// the state untouched.
pub proof fn lemma_recorded_replay(
    m: ShardModel,
    caller: ActorId,
    transaction_hash: TxId,
    msg_source: ActorId,
    account: ActorId,
    amount: u128,
)
    requires
        caller == m.ft_logic_id,
        m.transaction_status.contains_key(transaction_hash),
    ensures
        increase_step(m, caller, transaction_hash, account, amount)
            == (m, replay_reply(m.transaction_status[transaction_hash])),
        decrease_step(m, caller, transaction_hash, msg_source, account, amount)
            == (m, replay_reply(m.transaction_status[transaction_hash])),
        approve_step(m, caller, transaction_hash, msg_source, account, amount)
            == (m, replay_reply(m.transaction_status[transaction_hash])),
{
}

/// The idempotency window is bounded: once `Clear` has purged a record, the
/// identifier is brand-new, and reissuing the request executes it afresh —
/// here, an increase credits the account a second time.
pub proof fn lemma_clear_reopens_window(
    m: ShardModel,
    caller: ActorId,
    transaction_hash: TxId,
    account: ActorId,
    amount: u128,
)
    requires
        caller == m.ft_logic_id,
    ensures
        ({
            let m1 = increase_step(m, caller, transaction_hash, account, amount).0;
            let m2 = clear_step(m1, transaction_hash);
            let (m3, r3) = increase_step(m2, caller, transaction_hash, account, amount);
            &&& !m2.transaction_status.contains_key(transaction_hash)
            &&& m3.balances[account] == sat_add(m2.balances[account], amount)
            &&& r3 == (HandleResult::Reply {
                event: FTStorageEvent::Success,
                schedule_clear: Some(transaction_hash),
            })
        }),
{
    let m1 = increase_step(m, caller, transaction_hash, account, amount).0;
    let m2 = clear_step(m1, transaction_hash);
    assert(!m2.transaction_status.contains_key(transaction_hash));
}

/// Saturating arithmetic: a credit never wraps; it lands on the exact sum
/// while that sum is representable and caps at the maximum thereafter, so a
/// balance never decreases under `IncreaseBalance`.
pub proof fn lemma_increase_saturates(
    m: ShardModel,
    caller: ActorId,
    transaction_hash: TxId,
    account: ActorId,
    amount: u128,
)
    ensures
        ({
            let m1 = increase_step(m, caller, transaction_hash, account, amount).0;
            &&& m.balances[account] <= m1.balances[account] <= u128::MAX
            &&& m1.balances[account] <= m.balances[account] + amount
            &&& (caller == m.ft_logic_id
                && !m.transaction_status.contains_key(transaction_hash)
                && m.balances[account] + amount <= u128::MAX)
                ==> m1.balances[account] == m.balances[account] + amount
        }),
{
}

/// Repeated credits approach the maximum representable balance but never
/// wrap past it: across consecutive increases the balance only climbs.
pub proof fn lemma_repeated_increase_saturates(
    m: ShardModel,
    caller: ActorId,
    first_hash: TxId,
    second_hash: TxId,
    account: ActorId,
    first: u128,
    second: u128,
)
    ensures
        ({
            let m1 = increase_step(m, caller, first_hash, account, first).0;
            let m2 = increase_step(m1, caller, second_hash, account, second).0;
            m.balances[account]
                <= m1.balances[account]
                <= m2.balances[account]
                <= u128::MAX
        }),
{
}

/// No negative balances: a debit larger than the balance is rejected whole —
/// balances and approvals are exactly as before, and the authorized requester
/// is told it failed.
pub proof fn lemma_no_negative_balances(
    m: ShardModel,
    caller: ActorId,
    transaction_hash: TxId,
    msg_source: ActorId,
    account: ActorId,
    amount: u128,
)
    requires
        !m.transaction_status.contains_key(transaction_hash),
        m.balances[account] < amount,
    ensures
        ({
            let (m1, r) = decrease_step(
                m, caller, transaction_hash, msg_source, account, amount);
            &&& m1.balances == m.balances
            &&& m1.approvals == m.approvals
            &&& caller == m.ft_logic_id ==> reply_event(r) == Some(FTStorageEvent::Failure)
        }),
{
}

/// Allowance consumption is atomic: a fresh delegated debit either moves the
/// balance and the allowance down by the same amount together, or moves
/// neither and records the failure.
pub proof fn lemma_allowance_atomic(
    m: ShardModel,
    caller: ActorId,
    transaction_hash: TxId,
    msg_source: ActorId,
    account: ActorId,
    amount: u128,
)
    requires
        caller == m.ft_logic_id,
        !m.transaction_status.contains_key(transaction_hash),
        msg_source != account,
    ensures
        ({
            let (m1, r) = decrease_step(
                m, caller, transaction_hash, msg_source, account, amount);
            if can_debit(m, msg_source, account, amount) {
                &&& m1.balances[account] == m.balances[account] - amount
                &&& m1.approvals[(account, msg_source)]
                    == m.approvals[(account, msg_source)] - amount
                &&& reply_event(r) == Some(FTStorageEvent::Success)
            } else {
                &&& m1.balances == m.balances
                &&& m1.approvals == m.approvals
                &&& reply_event(r) == Some(FTStorageEvent::Failure)
            }
        }),
{
}

/// Authorization: a mutating request from anyone but the bound authorized
/// caller aborts fatally and leaves the whole ledger state unchanged.
pub proof fn lemma_unauthorized_unchanged(
    m: ShardModel,
    caller: ActorId,
    action: FTStorageAction,
)
    requires
        caller != m.ft_logic_id,
        action matches FTStorageAction::IncreaseBalance { .. }
            || action matches FTStorageAction::DecreaseBalance { .. }
            || action matches FTStorageAction::Approve { .. },
    ensures
        handle_step(m, caller, action) == (m, HandleResult::Fatal),
{
}

} // verus!
