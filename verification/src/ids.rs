//! Identifier types of the ledger: 256-bit actor and transaction identifiers,
//! held as two 128-bit halves so that equality is plain structural equality.

use vstd::prelude::*;

verus! {

/// Identity of an actor (an account, a contract, or the dispatcher itself).
#[derive(Clone, Copy, Debug, PartialEq, Eq, Structural)]
pub struct ActorId {
    pub hi: u128,
    pub lo: u128,
}

impl ActorId {
    pub fn new(hi: u128, lo: u128) -> (r: ActorId)
        ensures
            r == (ActorId { hi, lo }),
    {
        ActorId { hi, lo }
    }
}

/// Caller-supplied 256-bit transaction identifier, used to deduplicate
/// redelivered mutation requests.
#[derive(Clone, Copy, Debug, PartialEq, Eq, Structural)]
pub struct TxId {
    pub hi: u128,
    pub lo: u128,
}

impl TxId {
    pub fn new(hi: u128, lo: u128) -> (r: TxId)
        ensures
            r == (TxId { hi, lo }),
    {
        TxId { hi, lo }
    }
}

/// 256-bit hash of a deployable shard code blob.
#[derive(Clone, Copy, Debug, PartialEq, Eq, Structural)]
pub struct CodeHash {
    pub hi: u128,
    pub lo: u128,
}

impl CodeHash {
    pub fn new(hi: u128, lo: u128) -> (r: CodeHash)
        ensures
            r == (CodeHash { hi, lo }),
    {
        CodeHash { hi, lo }
    }
}

} // verus!
