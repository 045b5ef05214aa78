//! Sparse key-value storage for the ledger, modelling the host's abstract
//! mapping API: an entry exists only once it has been written, and absence is
//! observable separately from a stored zero.
//!
//! Each store is a vector of key-value pairs with pairwise-distinct keys, and
//! is specified by the `Map` it denotes.

use vstd::prelude::*;

use crate::types::AccountId;

verus! {

/// The map denoted by a sequence of key-value entries: later entries win,
/// though under `unique_keys` each key occurs at most once.
pub open spec fn map_of<K, V>(entries: Seq<(K, V)>) -> Map<K, V>
    decreases entries.len(),
{
    if entries.len() == 0 {
        Map::<K, V>::empty()
    } else {
        map_of(entries.drop_last()).insert(entries.last().0, entries.last().1)
    }
}

/// Every key occurs at most once among the entries.
pub open spec fn unique_keys<K, V>(entries: Seq<(K, V)>) -> bool {
    forall|i: int, j: int| 0 <= i < j < entries.len() ==> entries[i].0 != entries[j].0
}

/// The quantity a sparse store associates with `key`: absence of an entry is
/// semantically equivalent to zero.
pub open spec fn stored_or_zero<K>(m: Map<K, u64>, key: K) -> u64 {
    if m.dom().contains(key) {
        m[key]
    } else {
        0u64
    }
}

/// The store after reading `key` during a mutating operation: reading an
/// absent entry creates it with value zero (the zero-touch side effect), and
/// reading a present one changes nothing.
pub open spec fn touch<K>(m: Map<K, u64>, key: K) -> Map<K, u64> {
    if m.dom().contains(key) {
        m
    } else {
        m.insert(key, 0u64)
    }
}

/// A key is in the denoted map exactly when some entry carries it.
pub proof fn lemma_map_of_dom<K, V>(entries: Seq<(K, V)>, key: K)
    ensures
        map_of(entries).dom().contains(key) <==> exists|i: int|
            0 <= i < entries.len() && entries[i].0 == key,
    decreases entries.len(),
{
    if entries.len() > 0 {
        lemma_map_of_dom(entries.drop_last(), key);
        if entries.last().0 == key {
            assert(entries[entries.len() - 1].0 == key);
        } else {
            if map_of(entries).dom().contains(key) {
                let i = choose|i: int|
                    0 <= i < entries.drop_last().len() && entries.drop_last()[i].0 == key;
                assert(entries[i].0 == key);
            }
            if exists|i: int| 0 <= i < entries.len() && entries[i].0 == key {
                let i = choose|i: int| 0 <= i < entries.len() && entries[i].0 == key;
                assert(entries.drop_last()[i].0 == key);
            }
        }
    }
}

/// Dropping the last entry keeps the remaining keys pairwise distinct.
pub proof fn lemma_unique_keys_drop_last<K, V>(entries: Seq<(K, V)>)
    requires
        unique_keys(entries),
        entries.len() > 0,
    ensures
        unique_keys(entries.drop_last()),
{
    assert forall|i: int, j: int|
        0 <= i < j < entries.drop_last().len() implies entries.drop_last()[i].0
        != entries.drop_last()[j].0 by {
        assert(entries[i].0 != entries[j].0);
    }
}

/// With distinct keys, the denoted map sends an entry's key to its value.
pub proof fn lemma_map_of_index<K, V>(entries: Seq<(K, V)>, i: int)
    requires
        unique_keys(entries),
        0 <= i < entries.len(),
    ensures
        map_of(entries).dom().contains(entries[i].0),
        map_of(entries)[entries[i].0] == entries[i].1,
    decreases entries.len(),
{
    if i < entries.len() - 1 {
        assert(entries.last().0 != entries[i].0);
        assert(entries.drop_last()[i] == entries[i]);
        lemma_unique_keys_drop_last(entries);
        lemma_map_of_index(entries.drop_last(), i);
    }
}

/// Overwriting the value of the entry at `i` denotes a map `insert` at its key.
pub proof fn lemma_map_of_update<K, V>(entries: Seq<(K, V)>, i: int, value: V)
    requires
        unique_keys(entries),
        0 <= i < entries.len(),
    ensures
        map_of(entries.update(i, (entries[i].0, value))) == map_of(entries).insert(
            entries[i].0,
            value,
        ),
    decreases entries.len(),
{
    let key = entries[i].0;
    let updated = entries.update(i, (key, value));
    if i == entries.len() - 1 {
        assert(updated.drop_last() =~= entries.drop_last());
        assert(updated.last() == (key, value));
        assert(map_of(entries.drop_last()).insert(key, value) =~= map_of(entries).insert(
            key,
            value,
        ));
    } else {
        let last = entries.last();
        assert(last.0 != key);
        lemma_unique_keys_drop_last(entries);
        assert(entries.drop_last()[i] == entries[i]);
        lemma_map_of_update(entries.drop_last(), i, value);
        assert(updated.drop_last() =~= entries.drop_last().update(i, (key, value)));
        assert(updated.last() == last);
        assert(map_of(entries.drop_last()).insert(key, value).insert(last.0, last.1) =~= map_of(
            entries.drop_last(),
        ).insert(last.0, last.1).insert(key, value));
    }
}

/// Appending a fresh entry denotes a map `insert` at its key.
pub proof fn lemma_map_of_push<K, V>(entries: Seq<(K, V)>, key: K, value: V)
    ensures
        map_of(entries.push((key, value))) == map_of(entries).insert(key, value),
{
    assert(entries.push((key, value)).drop_last() =~= entries);
    assert(entries.push((key, value)).last() == (key, value));
}

/// Balance storage: one entry per account that has ever been written.
#[derive(Debug)]
pub struct BalanceMap {
    entries: Vec<(AccountId, u64)>,
}

impl View for BalanceMap {
    type V = Map<AccountId, u64>;

    closed spec fn view(&self) -> Map<AccountId, u64> {
        map_of(self.entries@)
    }
}

impl BalanceMap {
    #[verifier::type_invariant]
    spec fn wf(&self) -> bool {
        unique_keys(self.entries@)
    }

    /// An empty store: no account has an entry.
    pub fn new() -> (r: Self)
        ensures
            r@ == Map::<AccountId, u64>::empty(),
    {
        BalanceMap { entries: Vec::new() }
    }

    fn find_index(entries: &Vec<(AccountId, u64)>, key: AccountId) -> (r: Option<usize>)
        ensures
            match r {
                Some(i) => (i as int) < entries@.len() && entries@[i as int].0 == key,
                None => forall|j: int| 0 <= j < entries@.len() ==> entries@[j].0 != key,
            },
    {
        let mut i: usize = 0;
        while i < entries.len()
            invariant
                i <= entries@.len(),
                forall|j: int| 0 <= j < i ==> entries@[j].0 != key,
            decreases entries@.len() - i,
        {
            if entries[i].0 == key {
                return Some(i);
            }
            i += 1;
        }
        None
    }

    /// The stored value under `key`, or `None` when no entry exists.
    pub fn get(&self, key: AccountId) -> (r: Option<u64>)
        ensures
            r == (if self@.dom().contains(key) {
                Some(self@[key])
            } else {
                None::<u64>
            }),
    {
        proof {
            use_type_invariant(self);
        }
        match Self::find_index(&self.entries, key) {
            Some(i) => {
                proof {
                    lemma_map_of_index(self.entries@, i as int);
                }
                Some(self.entries[i].1)
            },
            None => {
                proof {
                    lemma_map_of_dom(self.entries@, key);
                }
                None
            },
        }
    }

    /// Whether an entry exists under `key`, regardless of its value.
    pub fn contains_key(&self, key: AccountId) -> (r: bool)
        ensures
            r == self@.dom().contains(key),
    {
        let found = self.get(key);
        found.is_some()
    }

    /// Writes `value` under `key`, creating the entry if it is absent.
    pub fn insert(&mut self, key: AccountId, value: u64)
        ensures
            final(self)@ == old(self)@.insert(key, value),
    {
        proof {
            use_type_invariant(&*self);
        }
        let ghost pre = self.entries@;
        let mut entries: Vec<(AccountId, u64)> = Vec::new();
        core::mem::swap(&mut entries, &mut self.entries);
        match Self::find_index(&entries, key) {
            Some(i) => {
                let slot = &mut entries[i];
                *slot = (key, value);
                proof {
                    assert(entries@ =~= pre.update(i as int, (key, value)));
                    lemma_map_of_update(pre, i as int, value);
                    assert forall|a: int, b: int|
                        0 <= a < b < entries@.len() implies entries@[a].0 != entries@[b].0 by {
                        assert(pre[a].0 != pre[b].0);
                    }
                }
            },
            None => {
                entries.push((key, value));
                proof {
                    lemma_map_of_push(pre, key, value);
                    assert forall|a: int, b: int|
                        0 <= a < b < entries@.len() implies entries@[a].0 != entries@[b].0 by {
                        if b < entries@.len() - 1 {
                            assert(pre[a].0 != pre[b].0);
                        } else {
                            assert(pre[a].0 != key);
                        }
                    }
                }
            },
        }
        self.entries = entries;
    }

    /// Reads `key` with the zero-touch side effect: an absent entry is
    /// created with value zero, and the value stored before the call (or
    /// zero) is returned.
    pub fn get_or_insert_zero(&mut self, key: AccountId) -> (r: u64)
        ensures
            final(self)@ == touch(old(self)@, key),
            r == stored_or_zero(old(self)@, key),
    {
        match self.get(key) {
            Some(b) => b,
            None => {
                self.insert(key, 0);
                0
            },
        }
    }
}

/// Allowance storage, keyed by the ordered (owner, spender) pair: the pair is
/// compared positionally, so (a, b) and (b, a) are distinct keys.
#[derive(Debug)]
pub struct AllowanceMap {
    entries: Vec<((AccountId, AccountId), u64)>,
}

impl View for AllowanceMap {
    type V = Map<(AccountId, AccountId), u64>;

    closed spec fn view(&self) -> Map<(AccountId, AccountId), u64> {
        map_of(self.entries@)
    }
}

impl AllowanceMap {
    #[verifier::type_invariant]
    spec fn wf(&self) -> bool {
        unique_keys(self.entries@)
    }

    /// An empty store: no pair has an allowance entry.
    pub fn new() -> (r: Self)
        ensures
            r@ == Map::<(AccountId, AccountId), u64>::empty(),
    {
        AllowanceMap { entries: Vec::new() }
    }

    fn find_index(entries: &Vec<((AccountId, AccountId), u64)>, key: (AccountId, AccountId)) -> (r:
        Option<usize>)
        ensures
            match r {
                Some(i) => (i as int) < entries@.len() && entries@[i as int].0 == key,
                None => forall|j: int| 0 <= j < entries@.len() ==> entries@[j].0 != key,
            },
    {
        let mut i: usize = 0;
        while i < entries.len()
            invariant
                i <= entries@.len(),
                forall|j: int| 0 <= j < i ==> entries@[j].0 != key,
            decreases entries@.len() - i,
        {
            let stored = entries[i].0;
            if stored.0 == key.0 && stored.1 == key.1 {
                return Some(i);
            }
            i += 1;
        }
        None
    }

    /// The stored allowance under `key`, or `None` when no entry exists.
    pub fn get(&self, key: (AccountId, AccountId)) -> (r: Option<u64>)
        ensures
            r == (if self@.dom().contains(key) {
                Some(self@[key])
            } else {
                None::<u64>
            }),
    {
        proof {
            use_type_invariant(self);
        }
        match Self::find_index(&self.entries, key) {
            Some(i) => {
                proof {
                    lemma_map_of_index(self.entries@, i as int);
                }
                Some(self.entries[i].1)
            },
            None => {
                proof {
                    lemma_map_of_dom(self.entries@, key);
                }
                None
            },
        }
    }

    /// Writes `value` under `key`, creating the entry if it is absent.
    pub fn insert(&mut self, key: (AccountId, AccountId), value: u64)
        ensures
            final(self)@ == old(self)@.insert(key, value),
    {
        proof {
            use_type_invariant(&*self);
        }
        let ghost pre = self.entries@;
        let mut entries: Vec<((AccountId, AccountId), u64)> = Vec::new();
        core::mem::swap(&mut entries, &mut self.entries);
        match Self::find_index(&entries, key) {
            Some(i) => {
                let slot = &mut entries[i];
                *slot = (key, value);
                proof {
                    assert(entries@ =~= pre.update(i as int, (key, value)));
                    lemma_map_of_update(pre, i as int, value);
                    assert forall|a: int, b: int|
                        0 <= a < b < entries@.len() implies entries@[a].0 != entries@[b].0 by {
                        assert(pre[a].0 != pre[b].0);
                    }
                }
            },
            None => {
                entries.push((key, value));
                proof {
                    lemma_map_of_push(pre, key, value);
                    assert forall|a: int, b: int|
                        0 <= a < b < entries@.len() implies entries@[a].0 != entries@[b].0 by {
                        if b < entries@.len() - 1 {
                            assert(pre[a].0 != pre[b].0);
                        } else {
                            assert(pre[a].0 != key);
                        }
                    }
                }
            },
        }
        self.entries = entries;
    }
}

} // verus!
