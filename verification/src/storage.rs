//! The ledger shard: authoritative balances, approvals and the bounded
//! transaction-outcome log for one partition of accounts, together with the
//! idempotent mutation protocol. Every handler is proved to perform exactly
//! the transition that [`crate::model`] gives for its request.
//!
//! The shard itself is transport-free: a host hands it the identity of the
//! requester and the decoded request, delivers the returned reply, and, when
//! the result asks for it, schedules the deferred `Clear` after
//! [`crate::DELAY`] ticks.

use vstd::prelude::*;
use crate::ids::{ActorId, TxId};
use crate::model::{
    approve_step, clear_step, decrease_step, handle_step, increase_step, initial_model,
    state_step, HandleResult, ShardModel,
};
use crate::tables::{Allowances, Balances, TxLog};
use crate::wire::{FTStorageAction, FTStorageEvent, FTStorageState, FTStorageStateReply};

verus! {

/// One ledger shard, bound at creation to the single caller whose mutation
/// requests it accepts.
pub struct FTStorage {
    ft_logic_id: ActorId,
    transaction_status: TxLog,
    balances: Balances,
    approvals: Allowances,
}

impl FTStorage {
    pub closed spec fn wf(self) -> bool {
        self.transaction_status.wf() && self.balances.wf() && self.approvals.wf()
    }

    pub closed spec fn view(self) -> ShardModel {
        ShardModel {
            ft_logic_id: self.ft_logic_id,
            transaction_status: self.transaction_status@,
            balances: self.balances@,
            approvals: self.approvals@,
        }
    }

    /// Creates the shard, bound to `ft_logic_id` as its only authorized
    /// mutator, with no balances, approvals or transaction records.
    pub fn new(ft_logic_id: ActorId) -> (r: FTStorage)
        ensures
            r.wf(),
            r@ == initial_model(ft_logic_id),
    {
        let r = FTStorage {
            ft_logic_id,
            transaction_status: TxLog::new(),
            balances: Balances::new(),
            approvals: Allowances::new(),
        };
        proof {
            assert(r@ =~= initial_model(ft_logic_id));
        }
        r
    }

    /// Pure read, open to any requester: zero for unknown accounts.
    pub fn get_balance(&self, account: &ActorId) -> (r: u128)
        requires
            self.wf(),
        ensures
            r == self@.balances[*account],
    {
        self.balances.get(account)
    }

    /// The standing allowance `owner` grants `spender`: zero when none.
    pub fn get_allowance(&self, owner: &ActorId, spender: &ActorId) -> (r: u128)
        requires
            self.wf(),
        ensures
            r == self@.approvals[(*owner, *spender)],
    {
        self.approvals.get(owner, spender)
    }

    /// The recorded outcome of a transaction, while its record is retained.
    pub fn recorded_status(&self, transaction_hash: &TxId) -> (r: Option<bool>)
        requires
            self.wf(),
        ensures
            r == (if self@.transaction_status.contains_key(*transaction_hash) {
                Some(self@.transaction_status[*transaction_hash])
            } else {
                None::<bool>
            }),
    {
        self.transaction_status.get(transaction_hash)
    }

    /// Replies with the recorded outcome of `transaction_hash` when there is
    /// one; used by every mutating handler before touching state.
    fn check_replay(&self, transaction_hash: &TxId) -> (r: Option<HandleResult>)
        requires
            self.wf(),
        ensures
            r == (if self@.transaction_status.contains_key(*transaction_hash) {
                Some(crate::model::replay_reply(self@.transaction_status[*transaction_hash]))
            } else {
                None::<HandleResult>
            }),
    {
        match self.transaction_status.get(transaction_hash) {
            Some(recorded) => Some(HandleResult::Reply {
                event: if recorded {
                    FTStorageEvent::Success
                } else {
                    FTStorageEvent::Failure
                },
                schedule_clear: None,
            }),
            None => None,
        }
    }

    /// Credits `account` with `amount`, saturating at the largest
    /// representable balance, and records the (always successful) outcome.
    pub fn increase_balance(
        &mut self,
        caller: &ActorId,
        transaction_hash: TxId,
        account: &ActorId,
        amount: u128,
    ) -> (r: HandleResult)
        requires
            old(self).wf(),
        ensures
            final(self).wf(),
            final(self)@ == increase_step(
                old(self)@, *caller, transaction_hash, *account, amount).0,
            r == increase_step(old(self)@, *caller, transaction_hash, *account, amount).1,
    {
        if *caller != self.ft_logic_id {
            return HandleResult::Fatal;
        }
        if let Some(replay) = self.check_replay(&transaction_hash) {
            return replay;
        }
        let balance = self.balances.get(account);
        self.balances.set(account, balance.saturating_add(amount));
        self.transaction_status.insert(transaction_hash, true);
        HandleResult::Reply {
            event: FTStorageEvent::Success,
            schedule_clear: Some(transaction_hash),
        }
    }

    /// Debits `account` by `amount`: directly when `msg_source` is the
    /// account itself, else through the allowance `account` granted
    /// `msg_source`, consuming balance and allowance together. A debit that
    /// cannot go through changes neither and is recorded as a failure.
    pub fn decrease_balance(
        &mut self,
        caller: &ActorId,
        transaction_hash: TxId,
        msg_source: &ActorId,
        account: &ActorId,
        amount: u128,
    ) -> (r: HandleResult)
        requires
            old(self).wf(),
        ensures
            final(self).wf(),
            final(self)@ == decrease_step(
                old(self)@, *caller, transaction_hash, *msg_source, *account, amount).0,
            r == decrease_step(
                old(self)@, *caller, transaction_hash, *msg_source, *account, amount).1,
    {
        if *caller != self.ft_logic_id {
            return HandleResult::Fatal;
        }
        if let Some(replay) = self.check_replay(&transaction_hash) {
            return replay;
        }
        let balance = self.balances.get(account);
        if *msg_source == *account {
            if balance >= amount {
                self.balances.set(account, balance - amount);
                self.transaction_status.insert(transaction_hash, true);
                return HandleResult::Reply {
                    event: FTStorageEvent::Success,
                    schedule_clear: Some(transaction_hash),
                };
            }
        } else {
            let allowed = self.approvals.get(account, msg_source);
            if balance >= amount && allowed >= amount {
                self.balances.set(account, balance - amount);
                self.approvals.set(account, msg_source, allowed - amount);
                self.transaction_status.insert(transaction_hash, true);
                return HandleResult::Reply {
                    event: FTStorageEvent::Success,
                    schedule_clear: Some(transaction_hash),
                };
            }
        }
        self.transaction_status.insert(transaction_hash, false);
        HandleResult::Reply {
            event: FTStorageEvent::Failure,
            schedule_clear: Some(transaction_hash),
        }
    }

    /// Raises, saturating, the allowance `msg_source` grants `account`.
    ///
    /// The replay check is made, but no outcome is written to the
    /// transaction log, so this operation alone is not idempotent under a
    /// fresh identifier; see [`crate::model::approve_step`].
    pub fn approve(
        &mut self,
        caller: &ActorId,
        transaction_hash: TxId,
        msg_source: &ActorId,
        account: &ActorId,
        amount: u128,
    ) -> (r: HandleResult)
        requires
            old(self).wf(),
        ensures
            final(self).wf(),
            final(self)@ == approve_step(
                old(self)@, *caller, transaction_hash, *msg_source, *account, amount).0,
            r == approve_step(
                old(self)@, *caller, transaction_hash, *msg_source, *account, amount).1,
    {
        if *caller != self.ft_logic_id {
            return HandleResult::Fatal;
        }
        if let Some(replay) = self.check_replay(&transaction_hash) {
            return replay;
        }
        let allowed = self.approvals.get(msg_source, account);
        self.approvals.set(msg_source, account, allowed.saturating_add(amount));
        HandleResult::Reply {
            event: FTStorageEvent::Success,
            schedule_clear: Some(transaction_hash),
        }
    }

    /// Deferred maintenance: drops the record of `transaction_hash`, after
    /// which the identifier is treated as brand-new again.
    pub fn clear(&mut self, transaction_hash: TxId)
        requires
            old(self).wf(),
        ensures
            final(self).wf(),
            final(self)@ == clear_step(old(self)@, transaction_hash),
    {
        self.transaction_status.remove(&transaction_hash);
    }

    /// Processes one incoming request from `caller` to completion.
    pub fn handle(&mut self, caller: &ActorId, action: FTStorageAction) -> (r: HandleResult)
        requires
            old(self).wf(),
        ensures
            final(self).wf(),
            final(self)@ == handle_step(old(self)@, *caller, action).0,
            r == handle_step(old(self)@, *caller, action).1,
    {
        match action {
            FTStorageAction::GetBalance(account) => {
                let balance = self.get_balance(&account);
                HandleResult::Reply {
                    event: FTStorageEvent::Balance(balance),
                    schedule_clear: None,
                }
            },
            FTStorageAction::IncreaseBalance { transaction_hash, account, amount } => {
                self.increase_balance(caller, transaction_hash, &account, amount)
            },
            FTStorageAction::DecreaseBalance { transaction_hash, msg_source, account, amount } => {
                self.decrease_balance(caller, transaction_hash, &msg_source, &account, amount)
            },
            FTStorageAction::Approve { transaction_hash, msg_source, account, amount } => {
                self.approve(caller, transaction_hash, &msg_source, &account, amount)
            },
            FTStorageAction::Clear(transaction_hash) => {
                self.clear(transaction_hash);
                HandleResult::Silent
            },
        }
    }

    /// Answers a state query; reads are open to anyone.
    pub fn meta_state(&self, query: &FTStorageState) -> (r: FTStorageStateReply)
        requires
            self.wf(),
        ensures
            r == state_step(self@, *query),
    {
        match query {
            FTStorageState::Balance(account) => {
                FTStorageStateReply::Balance(self.balances.get(account))
            },
        }
    }
}

} // verus!
