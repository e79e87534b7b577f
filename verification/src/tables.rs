//! Verified association tables backing the shard state: a transaction-outcome
//! log, a balance table, and an allowance table. Each is a vector of entries
//! with pairwise-distinct keys, viewed in specifications as a `Map`.
//!
//! Balances and allowances are viewed as total maps (an absent entry is an
//! implicit zero); the transaction log is viewed as a partial map, since the
//! presence of a record is what the replay check observes.

use vstd::prelude::*;
use crate::ids::{ActorId, TxId};

verus! {

// ---------------------------------------------------------------------------
// Spec-level view of an association sequence with distinct keys.
// ---------------------------------------------------------------------------

pub(crate) open spec fn key_at<K, V>(s: Seq<(K, V)>, k: K, i: int) -> bool {
    0 <= i < s.len() && s[i].0 == k
}

pub(crate) open spec fn has_key<K, V>(s: Seq<(K, V)>, k: K) -> bool {
    exists|i: int| key_at(s, k, i)
}

/// The value stored under `k`, or the default `d` when `k` is absent.
pub(crate) open spec fn value_in<K, V>(s: Seq<(K, V)>, k: K, d: V) -> V {
    if has_key(s, k) {
        s[choose|i: int| key_at(s, k, i)].1
    } else {
        d
    }
}

pub(crate) open spec fn distinct_keys<K, V>(s: Seq<(K, V)>) -> bool {
    forall|i: int, j: int|
        0 <= i < j < s.len() ==> (#[trigger] s[i]).0 != (#[trigger] s[j]).0
}

// ---------------------------------------------------------------------------
// Lemmas about the association-sequence view.
// ---------------------------------------------------------------------------

/// With distinct keys, the entry at index `i` decides the value of its key.
pub(crate) proof fn lemma_found<K, V>(s: Seq<(K, V)>, i: int, d: V)
    requires
        distinct_keys(s),
        0 <= i < s.len(),
    ensures
        has_key(s, s[i].0),
        value_in(s, s[i].0, d) == s[i].1,
{
    let k = s[i].0;
    assert(key_at(s, k, i));
    let j = choose|j: int| key_at(s, k, j);
    assert(j == i);
}

/// A key under no entry is absent and maps to the default.
pub(crate) proof fn lemma_absent<K, V>(s: Seq<(K, V)>, k: K, d: V)
    requires
        forall|i: int| 0 <= i < s.len() ==> (#[trigger] s[i]).0 != k,
    ensures
        !has_key(s, k),
        value_in(s, k, d) == d,
{
    if has_key(s, k) {
        let i = choose|i: int| key_at(s, k, i);
        assert(s[i].0 == k);
    }
}

/// Overwriting the value at an existing index changes exactly that key.
pub(crate) proof fn lemma_update<K, V>(s: Seq<(K, V)>, i: int, v: V, d: V)
    requires
        distinct_keys(s),
        0 <= i < s.len(),
    ensures
        ({
            let t = s.update(i, (s[i].0, v));
            &&& distinct_keys(t)
            &&& forall|b: K| #[trigger] has_key(t, b) <==> has_key(s, b)
            &&& forall|b: K|
                b != s[i].0 ==> #[trigger] value_in(t, b, d) == value_in(s, b, d)
            &&& value_in(t, s[i].0, d) == v
        }),
{
    let k = s[i].0;
    let t = s.update(i, (k, v));
    assert forall|x: int, y: int| 0 <= x < y < t.len() implies
        (#[trigger] t[x]).0 != (#[trigger] t[y]).0 by {
        assert(s[x].0 != s[y].0);
    }
    assert forall|b: K| #[trigger] has_key(t, b) <==> has_key(s, b) by {
        if has_key(t, b) {
            let j = choose|j: int| key_at(t, b, j);
            assert(key_at(s, b, j));
        }
        if has_key(s, b) {
            let j = choose|j: int| key_at(s, b, j);
            assert(key_at(t, b, j));
        }
    }
    assert(key_at(t, k, i));
    lemma_found(t, i, d);
    assert forall|b: K| b != k implies
        #[trigger] value_in(t, b, d) == value_in(s, b, d) by {
        if has_key(s, b) {
            let j = choose|j: int| key_at(s, b, j);
            assert(j != i);
            assert(key_at(t, b, j));
            lemma_found(s, j, d);
            lemma_found(t, j, d);
        } else {
            assert(!has_key(t, b));
        }
    }
}

/// Appending an entry for an absent key adds exactly that key.
pub(crate) proof fn lemma_push<K, V>(s: Seq<(K, V)>, k: K, v: V, d: V)
    requires
        distinct_keys(s),
        forall|i: int| 0 <= i < s.len() ==> (#[trigger] s[i]).0 != k,
    ensures
        ({
            let t = s.push((k, v));
            &&& distinct_keys(t)
            &&& forall|b: K| #[trigger] has_key(t, b) <==> (b == k || has_key(s, b))
            &&& forall|b: K| b != k ==> #[trigger] value_in(t, b, d) == value_in(s, b, d)
            &&& value_in(t, k, d) == v
        }),
{
    let t = s.push((k, v));
    let n = s.len() as int;
    assert forall|x: int, y: int| 0 <= x < y < t.len() implies
        (#[trigger] t[x]).0 != (#[trigger] t[y]).0 by {
        if y < n {
            assert(s[x].0 != s[y].0);
        } else {
            assert(t[y] == (k, v));
            assert(s[x].0 != k);
        }
    }
    assert forall|b: K| #[trigger] has_key(t, b) <==> (b == k || has_key(s, b)) by {
        if has_key(t, b) {
            let j = choose|j: int| key_at(t, b, j);
            if j < n {
                assert(key_at(s, b, j));
            } else {
                assert(t[j] == (k, v));
            }
        }
        if b == k {
            assert(key_at(t, k, n));
            assert(has_key(t, b));
        }
        if has_key(s, b) {
            let j = choose|j: int| key_at(s, b, j);
            assert(key_at(t, b, j));
        }
    }
    assert(key_at(t, k, n));
    lemma_found(t, n, d);
    assert forall|b: K| b != k implies
        #[trigger] value_in(t, b, d) == value_in(s, b, d) by {
        if has_key(s, b) {
            let j = choose|j: int| key_at(s, b, j);
            assert(key_at(t, b, j));
            lemma_found(s, j, d);
            lemma_found(t, j, d);
        } else {
            assert(!has_key(t, b));
        }
    }
}

/// Swapping the last entry into index `i` and dropping the tail removes
/// exactly the key at index `i`.
pub(crate) proof fn lemma_remove_at<K, V>(s: Seq<(K, V)>, i: int, d: V)
    requires
        distinct_keys(s),
        0 <= i < s.len(),
    ensures
        ({
            let t = s.update(i, s[s.len() - 1]).subrange(0, s.len() - 1);
            &&& distinct_keys(t)
            &&& !has_key(t, s[i].0)
            &&& forall|b: K|
                b != s[i].0 ==> (#[trigger] has_key(t, b) <==> has_key(s, b))
            &&& forall|b: K|
                b != s[i].0 ==> #[trigger] value_in(t, b, d) == value_in(s, b, d)
        }),
{
    let n = s.len() as int;
    let k = s[i].0;
    let t = s.update(i, s[n - 1]).subrange(0, n - 1);
    assert forall|x: int| 0 <= x < t.len() implies
        #[trigger] t[x] == (if x == i { s[n - 1] } else { s[x] }) by {}
    assert forall|x: int, y: int| 0 <= x < y < t.len() implies
        (#[trigger] t[x]).0 != (#[trigger] t[y]).0 by {
        if x == i {
            assert(s[n - 1].0 != s[y].0);
        } else if y == i {
            assert(s[x].0 != s[n - 1].0);
        } else {
            assert(s[x].0 != s[y].0);
        }
    }
    assert forall|j: int| 0 <= j < t.len() implies (#[trigger] t[j]).0 != k by {
        if j == i {
            if i < n - 1 {
                assert(s[i].0 != s[n - 1].0);
            }
        } else {
            assert(s[j].0 != s[i].0);
        }
    }
    lemma_absent(t, k, d);
    assert forall|b: K| b != k implies
        (#[trigger] has_key(t, b) <==> has_key(s, b)) by {
        if has_key(t, b) {
            let j = choose|j: int| key_at(t, b, j);
            if j == i {
                assert(key_at(s, b, n - 1));
            } else {
                assert(key_at(s, b, j));
            }
        }
        if has_key(s, b) {
            let j = choose|j: int| key_at(s, b, j);
            assert(j != i);
            if j == n - 1 {
                if i < n - 1 {
                    assert(key_at(t, b, i));
                }
            } else {
                assert(key_at(t, b, j));
            }
        }
    }
    assert forall|b: K| b != k implies
        #[trigger] value_in(t, b, d) == value_in(s, b, d) by {
        if has_key(t, b) {
            let j = choose|j: int| key_at(t, b, j);
            lemma_found(t, j, d);
            if j == i {
                lemma_found(s, n - 1, d);
            } else {
                lemma_found(s, j, d);
            }
        } else {
            assert(!has_key(s, b));
        }
    }
}

// ---------------------------------------------------------------------------
// Balance table: account -> amount, absent entries are zero.
// ---------------------------------------------------------------------------

pub struct Balances {
    entries: Vec<(ActorId, u128)>,
}

impl Balances {
    pub closed spec fn wf(self) -> bool {
        distinct_keys(self.entries@)
    }

    pub closed spec fn view(self) -> Map<ActorId, u128> {
        Map::new(|a: ActorId| true, |a: ActorId| value_in(self.entries@, a, 0u128))
    }

    pub fn new() -> (r: Balances)
        ensures
            r.wf(),
            r@ == Map::new(|a: ActorId| true, |a: ActorId| 0u128),
    {
        let r = Balances { entries: Vec::new() };
        proof {
            assert forall|a: ActorId| #[trigger] value_in(r.entries@, a, 0u128) == 0u128 by {
                lemma_absent(r.entries@, a, 0u128);
            }
            assert(r@ =~= Map::new(|a: ActorId| true, |a: ActorId| 0u128));
        }
        r
    }

    fn find(&self, a: &ActorId) -> (r: Option<usize>)
        ensures
            match r {
                Some(i) => i < self.entries@.len() && self.entries@[i as int].0 == *a,
                None => forall|j: int|
                    0 <= j < self.entries@.len() ==> (#[trigger] self.entries@[j]).0 != *a,
            },
    {
        let mut i: usize = 0;
        while i < self.entries.len()
            invariant
                i <= self.entries@.len(),
                forall|j: int| 0 <= j < i ==> (#[trigger] self.entries@[j]).0 != *a,
            decreases self.entries@.len() - i,
        {
            if self.entries[i].0 == *a {
                return Some(i);
            }
            i += 1;
        }
        None
    }

    pub fn get(&self, a: &ActorId) -> (r: u128)
        requires
            self.wf(),
        ensures
            r == self@[*a],
    {
        match self.find(a) {
            Some(i) => {
                proof {
                    lemma_found(self.entries@, i as int, 0u128);
                }
                self.entries[i].1
            },
            None => {
                proof {
                    lemma_absent(self.entries@, *a, 0u128);
                }
                0
            },
        }
    }

    pub fn set(&mut self, a: &ActorId, v: u128)
        requires
            old(self).wf(),
        ensures
            final(self).wf(),
            final(self)@ == old(self)@.insert(*a, v),
    {
        let ghost s = self.entries@;
        match self.find(a) {
            Some(i) => {
                self.entries[i] = (*a, v);
                proof {
                    lemma_update(s, i as int, v, 0u128);
                    assert(self.entries@ == s.update(i as int, (s[i as int].0, v)));
                    assert(self@ =~= old(self)@.insert(*a, v));
                }
            },
            None => {
                self.entries.push((*a, v));
                proof {
                    lemma_push(s, *a, v, 0u128);
                    assert(self@ =~= old(self)@.insert(*a, v));
                }
            },
        }
    }
}

// ---------------------------------------------------------------------------
// Allowance table: (owner, spender) -> allowed amount, absent entries zero.
// ---------------------------------------------------------------------------

pub struct Allowances {
    entries: Vec<((ActorId, ActorId), u128)>,
}

impl Allowances {
    pub closed spec fn wf(self) -> bool {
        distinct_keys(self.entries@)
    }

    pub closed spec fn view(self) -> Map<(ActorId, ActorId), u128> {
        Map::new(
            |p: (ActorId, ActorId)| true,
            |p: (ActorId, ActorId)| value_in(self.entries@, p, 0u128),
        )
    }

    pub fn new() -> (r: Allowances)
        ensures
            r.wf(),
            r@ == Map::new(|p: (ActorId, ActorId)| true, |p: (ActorId, ActorId)| 0u128),
    {
        let r = Allowances { entries: Vec::new() };
        proof {
            assert forall|p: (ActorId, ActorId)|
                #[trigger] value_in(r.entries@, p, 0u128) == 0u128 by {
                lemma_absent(r.entries@, p, 0u128);
            }
            assert(r@ =~= Map::new(
                |p: (ActorId, ActorId)| true,
                |p: (ActorId, ActorId)| 0u128,
            ));
        }
        r
    }

    fn find(&self, owner: &ActorId, spender: &ActorId) -> (r: Option<usize>)
        ensures
            match r {
                Some(i) => i < self.entries@.len()
                    && self.entries@[i as int].0 == (*owner, *spender),
                None => forall|j: int|
                    0 <= j < self.entries@.len()
                        ==> (#[trigger] self.entries@[j]).0 != (*owner, *spender),
            },
    {
        let mut i: usize = 0;
        while i < self.entries.len()
            invariant
                i <= self.entries@.len(),
                forall|j: int|
                    0 <= j < i ==> (#[trigger] self.entries@[j]).0 != (*owner, *spender),
            decreases self.entries@.len() - i,
        {
            if self.entries[i].0.0 == *owner && self.entries[i].0.1 == *spender {
                return Some(i);
            }
            i += 1;
        }
        None
    }

    pub fn get(&self, owner: &ActorId, spender: &ActorId) -> (r: u128)
        requires
            self.wf(),
        ensures
            r == self@[(*owner, *spender)],
    {
        match self.find(owner, spender) {
            Some(i) => {
                proof {
                    lemma_found(self.entries@, i as int, 0u128);
                }
                self.entries[i].1
            },
            None => {
                proof {
                    lemma_absent(self.entries@, (*owner, *spender), 0u128);
                }
                0
            },
        }
    }

    pub fn set(&mut self, owner: &ActorId, spender: &ActorId, v: u128)
        requires
            old(self).wf(),
        ensures
            final(self).wf(),
            final(self)@ == old(self)@.insert((*owner, *spender), v),
    {
        let ghost s = self.entries@;
        match self.find(owner, spender) {
            Some(i) => {
                self.entries[i] = ((*owner, *spender), v);
                proof {
                    lemma_update(s, i as int, v, 0u128);
                    assert(self.entries@ == s.update(i as int, (s[i as int].0, v)));
                    assert(self@ =~= old(self)@.insert((*owner, *spender), v));
                }
            },
            None => {
                self.entries.push(((*owner, *spender), v));
                proof {
                    lemma_push(s, (*owner, *spender), v, 0u128);
                    assert(self@ =~= old(self)@.insert((*owner, *spender), v));
                }
            },
        }
    }
}

// ---------------------------------------------------------------------------
// Transaction-outcome log: transaction id -> recorded outcome.
// ---------------------------------------------------------------------------

pub struct TxLog {
    entries: Vec<(TxId, bool)>,
}

impl TxLog {
    pub closed spec fn wf(self) -> bool {
        distinct_keys(self.entries@)
    }

    pub closed spec fn view(self) -> Map<TxId, bool> {
        Map::new(
            |t: TxId| has_key(self.entries@, t),
            |t: TxId| value_in(self.entries@, t, false),
        )
    }

    pub fn new() -> (r: TxLog)
        ensures
            r.wf(),
            r@ == Map::<TxId, bool>::empty(),
    {
        let r = TxLog { entries: Vec::new() };
        proof {
            assert forall|t: TxId| !(#[trigger] has_key(r.entries@, t)) by {
                lemma_absent(r.entries@, t, false);
            }
            assert(r@ =~= Map::<TxId, bool>::empty());
        }
        r
    }

    fn find(&self, t: &TxId) -> (r: Option<usize>)
        ensures
            match r {
                Some(i) => i < self.entries@.len() && self.entries@[i as int].0 == *t,
                None => forall|j: int|
                    0 <= j < self.entries@.len() ==> (#[trigger] self.entries@[j]).0 != *t,
            },
    {
        let mut i: usize = 0;
        while i < self.entries.len()
            invariant
                i <= self.entries@.len(),
                forall|j: int| 0 <= j < i ==> (#[trigger] self.entries@[j]).0 != *t,
            decreases self.entries@.len() - i,
        {
            if self.entries[i].0 == *t {
                return Some(i);
            }
            i += 1;
        }
        None
    }

    pub fn get(&self, t: &TxId) -> (r: Option<bool>)
        requires
            self.wf(),
        ensures
            r == (if self@.contains_key(*t) {
                Some(self@[*t])
            } else {
                None::<bool>
            }),
    {
        match self.find(t) {
            Some(i) => {
                proof {
                    lemma_found(self.entries@, i as int, false);
                }
                Some(self.entries[i].1)
            },
            None => {
                proof {
                    lemma_absent(self.entries@, *t, false);
                }
                None
            },
        }
    }

    pub fn insert(&mut self, t: TxId, outcome: bool)
        requires
            old(self).wf(),
        ensures
            final(self).wf(),
            final(self)@ == old(self)@.insert(t, outcome),
    {
        let ghost s = self.entries@;
        match self.find(&t) {
            Some(i) => {
                self.entries[i] = (t, outcome);
                proof {
                    lemma_found(s, i as int, false);
                    lemma_update(s, i as int, outcome, false);
                    assert(self.entries@ == s.update(i as int, (s[i as int].0, outcome)));
                    assert(self@ =~= old(self)@.insert(t, outcome));
                }
            },
            None => {
                self.entries.push((t, outcome));
                proof {
                    lemma_push(s, t, outcome, false);
                    assert(self@ =~= old(self)@.insert(t, outcome));
                }
            },
        }
    }

    pub fn remove(&mut self, t: &TxId)
        requires
            old(self).wf(),
        ensures
            final(self).wf(),
            final(self)@ == old(self)@.remove(*t),
    {
        let ghost s = self.entries@;
        match self.find(t) {
            Some(i) => {
                let last = self.entries.len() - 1;
                if i < last {
                    let moved = self.entries[last];
                    self.entries[i] = moved;
                }
                self.entries.pop();
                proof {
                    if i as int == s.len() - 1 {
                        assert(s.update(i as int, s[s.len() - 1]) =~= s);
                    }
                    assert(self.entries@ == s.update(i as int, s[s.len() - 1])
                        .subrange(0, s.len() - 1));
                    lemma_remove_at(s, i as int, false);
                    assert(self@ =~= old(self)@.remove(*t));
                }
            },
            None => {
                proof {
                    lemma_absent(s, *t, false);
                    assert(self@ =~= old(self)@.remove(*t));
                }
            },
        }
    }
}

} // verus!
