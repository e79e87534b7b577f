//! Message types exchanged between the dispatcher and a ledger shard, and the
//! dispatcher's own client-facing message types. Transport encoding and
//! decoding happen outside the library; here the messages are plain values.

use vstd::prelude::*;
use crate::ids::{ActorId, CodeHash, TxId};

verus! {

/// Request accepted by a ledger shard.
#[derive(Clone, Copy, Debug, PartialEq, Eq, Structural)]
pub enum FTStorageAction {
    GetBalance(ActorId),
    IncreaseBalance { transaction_hash: TxId, account: ActorId, amount: u128 },
    DecreaseBalance { transaction_hash: TxId, msg_source: ActorId, account: ActorId, amount: u128 },
    Approve { transaction_hash: TxId, msg_source: ActorId, account: ActorId, amount: u128 },
    Clear(TxId),
}

/// Reply produced by a ledger shard.
#[derive(Clone, Copy, Debug, PartialEq, Eq, Structural)]
pub enum FTStorageEvent {
    Success,
    Failure,
    Balance(u128),
}

/// State query accepted by a ledger shard.
#[derive(Clone, Copy, Debug, PartialEq, Eq, Structural)]
pub enum FTStorageState {
    Balance(ActorId),
}

/// Reply to a ledger-shard state query.
#[derive(Clone, Copy, Debug, PartialEq, Eq, Structural)]
pub enum FTStorageStateReply {
    Balance(u128),
}

/// Client-facing token operation routed by the dispatcher.
#[derive(Clone, Copy, Debug, PartialEq, Eq, Structural)]
pub enum Action {
    Mint { recipient: ActorId, amount: u128 },
    Transfer { sender: ActorId, recipient: ActorId, amount: u128 },
}

/// Request accepted by the dispatcher.
#[derive(Clone, Copy, Debug, PartialEq, Eq, Structural)]
pub enum FTLogicAction {
    Message { transaction_hash: TxId, account: ActorId, payload: Action },
    UpdateStorageCodeHash(CodeHash),
    MigrateStorages,
}

/// Reply produced by the dispatcher.
#[derive(Clone, Copy, Debug, PartialEq, Eq, Structural)]
pub enum FTLogicEvent {
    Success,
    Failure,
}

/// Dispatcher initialization parameters.
#[derive(Clone, Copy, Debug, PartialEq, Eq, Structural)]
pub struct InitFTLogic {
    pub admin: ActorId,
    pub storage_code_hash: CodeHash,
}

/// State query accepted by the dispatcher.
#[derive(Clone, Copy, Debug, PartialEq, Eq, Structural)]
pub enum FTLogicState {
    Storages,
}

/// Reply to a dispatcher state query: the shard directory, one shard per
/// account-id prefix.
#[derive(Debug)]
pub enum FTLogicStateReply {
    Storages(Vec<(String, ActorId)>),
}

} // verus!
