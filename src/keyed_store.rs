//! A persistent mapping from 32-byte keys to values: keys are unique and
//! the order in which entries were made carries no meaning.
use vstd::prelude::*;
use crate::primitives::bytes32_eq;

verus! {

/// A key that can be compared in executable code.
pub trait StoreKey: Copy {
    /// Whether two keys are the same key.
    fn same_key(&self, other: &Self) -> (r: bool)
        ensures
            r == (*self == *other),
    ;
}

impl StoreKey for [u8; 32] {
    fn same_key(&self, other: &Self) -> (r: bool) {
        bytes32_eq(self, other)
    }
}

impl StoreKey for u64 {
    fn same_key(&self, other: &Self) -> (r: bool) {
        *self == *other
    }
}

/// The sum of `f` over the values of a list of entries.
pub open spec fn sum_values<K, V>(s: Seq<(K, V)>, f: spec_fn(V) -> int) -> int
    decreases s.len(),
{
    if s.len() == 0 {
        0
    } else {
        sum_values(s.drop_last(), f) + f(s.last().1)
    }
}

proof fn lemma_sum_push<K, V>(s: Seq<(K, V)>, e: (K, V), f: spec_fn(V) -> int)
    ensures
        sum_values(s.push(e), f) == sum_values(s, f) + f(e.1),
{
    assert(s.push(e).drop_last() =~= s);
}

proof fn lemma_sum_update<K, V>(s: Seq<(K, V)>, i: int, e: (K, V), f: spec_fn(V) -> int)
    requires
        0 <= i < s.len(),
    ensures
        sum_values(s.update(i, e), f) == sum_values(s, f) - f(s[i].1) + f(e.1),
    decreases s.len(),
{
    if i == s.len() - 1 {
        assert(s.update(i, e).drop_last() =~= s.drop_last());
    } else {
        assert(s.update(i, e).drop_last() =~= s.drop_last().update(i, e));
        lemma_sum_update(s.drop_last(), i, e, f);
    }
}

proof fn lemma_sum_remove<K, V>(s: Seq<(K, V)>, i: int, f: spec_fn(V) -> int)
    requires
        0 <= i < s.len(),
    ensures
        sum_values(s.remove(i), f) == sum_values(s, f) - f(s[i].1),
    decreases s.len(),
{
    if i == s.len() - 1 {
        assert(s.remove(i) =~= s.drop_last());
    } else {
        assert(s.remove(i).drop_last() =~= s.drop_last().remove(i));
        lemma_sum_remove(s.drop_last(), i, f);
    }
}

/// Entries under unique keys, seen as a finite `Map`.
#[verifier::reject_recursive_types(K)]
pub struct KeyedStore<K, V> {
    entries: Vec<(K, V)>,
    contents: Ghost<Map<K, V>>,
}

impl<K, V> View for KeyedStore<K, V> {
    type V = Map<K, V>;

    closed spec fn view(&self) -> Map<K, V> {
        self.contents@
    }
}

impl<K: StoreKey, V> KeyedStore<K, V> {
    /// Keys are unique, and the entries hold exactly the map.
    pub closed spec fn wf(&self) -> bool {
        &&& forall|i: int, j: int|
            0 <= i < self.entries@.len() && 0 <= j < self.entries@.len() && i != j
                ==> self.entries@[i].0 != self.entries@[j].0
        &&& forall|i: int|
            0 <= i < self.entries@.len() ==> #[trigger] self.contents@.contains_key(
                self.entries@[i].0,
            ) && self.contents@[self.entries@[i].0] == self.entries@[i].1
        &&& forall|k: K|
            #[trigger] self.contents@.contains_key(k) ==> exists|i: int|
                0 <= i < self.entries@.len() && self.entries@[i].0 == k
    }

    /// The sum of `f` over the values held, each key counted once.
    pub closed spec fn sum_of(&self, f: spec_fn(V) -> int) -> int {
        sum_values(self.entries@, f)
    }

    /// An empty store.
    pub fn new() -> (r: Self)
        ensures
            r.wf(),
            r@ == Map::<K, V>::empty(),
            forall|f: spec_fn(V) -> int| #[trigger] r.sum_of(f) == 0,
    {
        KeyedStore { entries: Vec::new(), contents: Ghost(Map::empty()) }
    }

    fn position(&self, key: &K) -> (r: Option<usize>)
        requires
            self.wf(),
        ensures
            match r {
                Some(i) => i < self.entries@.len() && self.entries@[i as int].0 == *key,
                None => !self@.contains_key(*key),
            },
    {
        let mut i: usize = 0;
        while i < self.entries.len()
            invariant
                self.wf(),
                0 <= i <= self.entries@.len(),
                forall|j: int| 0 <= j < i ==> self.entries@[j].0 != *key,
            decreases self.entries@.len() - i,
        {
            if self.entries[i].0.same_key(key) {
                return Some(i);
            }
            i = i + 1;
        }
        None
    }

    /// A reference to the value under `key`, if any.
    pub fn get_ref(&self, key: &K) -> (r: Option<&V>)
        requires
            self.wf(),
        ensures
            match r {
                Some(v) => self@.contains_key(*key) && *v == self@[*key],
                None => !self@.contains_key(*key),
            },
    {
        match self.position(key) {
            Some(i) => {
                assert(self.contents@.contains_key(self.entries@[i as int].0));
                Some(&self.entries[i].1)
            },
            None => None,
        }
    }

    /// Whether `key` has a value.
    pub fn contains(&self, key: &K) -> (r: bool)
        requires
            self.wf(),
        ensures
            r == self@.contains_key(*key),
    {
        match self.position(key) {
            Some(_) => true,
            None => false,
        }
    }

    /// Sets the value under `key`, replacing any earlier one.
    pub fn insert(&mut self, key: K, value: V)
        requires
            old(self).wf(),
        ensures
            final(self).wf(),
            final(self)@ == old(self)@.insert(key, value),
            forall|f: spec_fn(V) -> int| #[trigger]
                final(self).sum_of(f) == old(self).sum_of(f) - (if old(self)@.contains_key(key) {
                    f(old(self)@[key])
                } else {
                    0
                }) + f(value),
    {
        let ghost new_map = self.contents@.insert(key, value);
        match self.position(&key) {
            Some(i) => {
                proof {
                    assert(self.contents@.contains_key(self.entries@[i as int].0));
                    assert forall|f: spec_fn(V) -> int| true implies #[trigger] sum_values(
                        self.entries@.update(i as int, (key, value)),
                        f,
                    ) == sum_values(self.entries@, f) - f(self.entries@[i as int].1) + f(value) by {
                        lemma_sum_update(self.entries@, i as int, (key, value), f);
                    }
                }
                self.entries.set(i, (key, value));
                self.contents = Ghost(new_map);
                assert forall|k: K| #[trigger] self.contents@.contains_key(k) implies exists|
                    j: int,
                | 0 <= j < self.entries@.len() && self.entries@[j].0 == k by {
                    if k != key {
                        assert(old(self).contents@.contains_key(k));
                        let j = choose|j: int|
                            0 <= j < old(self).entries@.len() && old(self).entries@[j].0 == k;
                        assert(self.entries@[j].0 == k);
                    } else {
                        assert(self.entries@[i as int].0 == k);
                    }
                }
            },
            None => {
                proof {
                    assert forall|f: spec_fn(V) -> int| true implies #[trigger] sum_values(
                        self.entries@.push((key, value)),
                        f,
                    ) == sum_values(self.entries@, f) + f(value) by {
                        lemma_sum_push(self.entries@, (key, value), f);
                    }
                }
                self.entries.push((key, value));
                self.contents = Ghost(new_map);
                assert forall|k: K| #[trigger] self.contents@.contains_key(k) implies exists|
                    j: int,
                | 0 <= j < self.entries@.len() && self.entries@[j].0 == k by {
                    if k != key {
                        assert(old(self).contents@.contains_key(k));
                        let j = choose|j: int|
                            0 <= j < old(self).entries@.len() && old(self).entries@[j].0 == k;
                        assert(self.entries@[j].0 == k);
                    } else {
                        let last = self.entries@.len() - 1;
                        assert(self.entries@[last].0 == k);
                    }
                }
            },
        }
    }

    /// Removes `key` and hands back its value, if present.
    pub fn take(&mut self, key: &K) -> (r: Option<V>)
        requires
            old(self).wf(),
        ensures
            final(self).wf(),
            final(self)@ == old(self)@.remove(*key),
            r == (if old(self)@.contains_key(*key) {
                Some(old(self)@[*key])
            } else {
                None
            }),
            forall|f: spec_fn(V) -> int| #[trigger]
                final(self).sum_of(f) == old(self).sum_of(f) - (if old(self)@.contains_key(*key) {
                    f(old(self)@[*key])
                } else {
                    0
                }),
    {
        match self.position(key) {
            Some(i) => {
                let ghost old_entries = self.entries@;
                let ghost new_map = self.contents@.remove(*key);
                proof {
                    assert(self.contents@.contains_key(self.entries@[i as int].0));
                    assert forall|f: spec_fn(V) -> int| true implies #[trigger] sum_values(
                        old_entries.remove(i as int),
                        f,
                    ) == sum_values(old_entries, f) - f(old_entries[i as int].1) by {
                        lemma_sum_remove(old_entries, i as int, f);
                    }
                }
                let (_, value) = self.entries.remove(i);
                self.contents = Ghost(new_map);
                assert forall|j: int|
                    0 <= j < self.entries@.len() implies #[trigger] self.contents@.contains_key(
                    self.entries@[j].0,
                ) && self.contents@[self.entries@[j].0] == self.entries@[j].1 by {
                    if j < i {
                        assert(self.entries@[j] == old_entries[j]);
                    } else {
                        assert(self.entries@[j] == old_entries[j + 1]);
                    }
                }
                assert forall|k: K| #[trigger] self.contents@.contains_key(k) implies exists|
                    j: int,
                | 0 <= j < self.entries@.len() && self.entries@[j].0 == k by {
                    assert(old(self).contents@.contains_key(k));
                    let j = choose|j: int| 0 <= j < old_entries.len() && old_entries[j].0 == k;
                    assert(j != i);
                    if j < i {
                        assert(self.entries@[j].0 == k);
                    } else {
                        assert(self.entries@[j - 1].0 == k);
                    }
                }
                Some(value)
            },
            None => {
                assert(self.contents@.remove(*key) =~= self.contents@);
                None
            },
        }
    }

    /// Removes `key` and its value, if present.
    pub fn remove(&mut self, key: &K)
        requires
            old(self).wf(),
        ensures
            final(self).wf(),
            final(self)@ == old(self)@.remove(*key),
            forall|f: spec_fn(V) -> int| #[trigger]
                final(self).sum_of(f) == old(self).sum_of(f) - (if old(self)@.contains_key(*key) {
                    f(old(self)@[*key])
                } else {
                    0
                }),
    {
        let _ = self.take(key);
    }
}

impl<K: StoreKey, V: Copy> KeyedStore<K, V> {
    /// The value under `key`, if any.
    pub fn get(&self, key: &K) -> (r: Option<V>)
        requires
            self.wf(),
        ensures
            r == (if self@.contains_key(*key) {
                Some(self@[*key])
            } else {
                None
            }),
    {
        match self.position(key) {
            Some(i) => Some(self.entries[i].1),
            None => None,
        }
    }
}

} // verus!
