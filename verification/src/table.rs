//! A small keyed table: at most one value per key, with totals over its
//! entries.
//!
//! The ledger keeps every kind of account in one of these. A table is viewed as
//! a `Map`; `total` adds up a weight over all entries, which is how the ledger
//! states that no balance is created or lost.

use vstd::prelude::*;

verus! {

/// A key that can be compared at run time.
pub trait Key: Copy {
    /// Whether the two keys are equal.
    fn same(&self, other: &Self) -> (b: bool)
        ensures
            b <==> *self == *other,
    ;
}

/// A table from keys to values.
pub struct Table<K, V> {
    entries: Vec<(K, V)>,
}

/// The sum of `weight` over the entries of `s`.
pub open spec fn seq_total<K, V>(s: Seq<(K, V)>, weight: spec_fn(K, V) -> int) -> int
    decreases s.len(),
{
    if s.len() == 0 {
        0
    } else {
        seq_total(s.drop_last(), weight) + weight(s.last().0, s.last().1)
    }
}

/// Whether `k` is the key of some entry of `s`.
pub open spec fn seq_has_key<K, V>(s: Seq<(K, V)>, k: K) -> bool {
    exists|i: int| 0 <= i < s.len() && (#[trigger] s[i]).0 == k
}

/// An index at which `k` stands in `s`.
pub open spec fn seq_index_of<K, V>(s: Seq<(K, V)>, k: K) -> int {
    choose|i: int| 0 <= i < s.len() && (#[trigger] s[i]).0 == k
}

/// No key stands twice in `s`.
pub open spec fn seq_distinct<K, V>(s: Seq<(K, V)>) -> bool {
    forall|i: int, j: int|
        0 <= i < s.len() && 0 <= j < s.len() && (#[trigger] s[i]).0 == (#[trigger] s[j]).0 ==> i
            == j
}

/// The map that `s` stands for.
pub open spec fn seq_map<K, V>(s: Seq<(K, V)>) -> Map<K, V> {
    Map::new(|k: K| seq_has_key(s, k), |k: K| s[seq_index_of(s, k)].1)
}

proof fn lemma_total_push<K, V>(s: Seq<(K, V)>, e: (K, V), weight: spec_fn(K, V) -> int)
    ensures
        seq_total(s.push(e), weight) == seq_total(s, weight) + weight(e.0, e.1),
{
    assert(s.push(e).drop_last() =~= s);
}

proof fn lemma_total_update<K, V>(s: Seq<(K, V)>, i: int, e: (K, V), weight: spec_fn(K, V) -> int)
    requires
        0 <= i < s.len(),
    ensures
        seq_total(s.update(i, e), weight) == seq_total(s, weight) - weight(s[i].0, s[i].1)
            + weight(e.0, e.1),
    decreases s.len(),
{
    let t = s.update(i, e);
    if i == s.len() - 1 {
        assert(t.drop_last() =~= s.drop_last());
    } else {
        assert(t.drop_last() =~= s.drop_last().update(i, e));
        lemma_total_update(s.drop_last(), i, e, weight);
    }
}

proof fn lemma_total_remove<K, V>(s: Seq<(K, V)>, i: int, weight: spec_fn(K, V) -> int)
    requires
        0 <= i < s.len(),
    ensures
        seq_total(s.remove(i), weight) == seq_total(s, weight) - weight(s[i].0, s[i].1),
    decreases s.len(),
{
    let t = s.remove(i);
    if i == s.len() - 1 {
        assert(t =~= s.drop_last());
    } else {
        assert(t.drop_last() =~= s.drop_last().remove(i));
        assert(t.last() == s.last());
        lemma_total_remove(s.drop_last(), i, weight);
    }
}

proof fn lemma_total_bound<K, V>(s: Seq<(K, V)>, i: int, weight: spec_fn(K, V) -> int)
    requires
        0 <= i < s.len(),
        forall|k: K, v: V| #[trigger] weight(k, v) >= 0,
    ensures
        weight(s[i].0, s[i].1) <= seq_total(s, weight),
        0 <= seq_total(s, weight),
    decreases s.len(),
{
    lemma_total_nonnegative(s.drop_last(), weight);
    if i < s.len() - 1 {
        lemma_total_bound(s.drop_last(), i, weight);
    }
}

proof fn lemma_total_pair<K, V>(s: Seq<(K, V)>, i: int, j: int, weight: spec_fn(K, V) -> int)
    requires
        0 <= i < s.len(),
        0 <= j < s.len(),
        i != j,
        forall|k: K, v: V| #[trigger] weight(k, v) >= 0,
    ensures
        weight(s[i].0, s[i].1) + weight(s[j].0, s[j].1) <= seq_total(s, weight),
    decreases s.len(),
{
    let last = s.len() - 1;
    if i == last {
        lemma_total_bound(s.drop_last(), j, weight);
    } else if j == last {
        lemma_total_bound(s.drop_last(), i, weight);
    } else {
        lemma_total_pair(s.drop_last(), i, j, weight);
    }
}

proof fn lemma_total_nonnegative<K, V>(s: Seq<(K, V)>, weight: spec_fn(K, V) -> int)
    requires
        forall|k: K, v: V| #[trigger] weight(k, v) >= 0,
    ensures
        0 <= seq_total(s, weight),
    decreases s.len(),
{
    if s.len() > 0 {
        lemma_total_nonnegative(s.drop_last(), weight);
    }
}

proof fn lemma_total_zero<K, V>(s: Seq<(K, V)>, weight: spec_fn(K, V) -> int)
    requires
        forall|i: int| 0 <= i < s.len() ==> weight(s[i].0, s[i].1) == 0,
    ensures
        seq_total(s, weight) == 0,
    decreases s.len(),
{
    if s.len() > 0 {
        lemma_total_zero(s.drop_last(), weight);
    }
}

proof fn lemma_map_index<K, V>(s: Seq<(K, V)>, i: int)
    requires
        seq_distinct(s),
        0 <= i < s.len(),
    ensures
        seq_has_key(s, s[i].0),
        seq_index_of(s, s[i].0) == i,
        seq_map(s).contains_key(s[i].0),
        seq_map(s)[s[i].0] == s[i].1,
{
}

impl<K, V> View for Table<K, V> {
    type V = Map<K, V>;

    closed spec fn view(&self) -> Map<K, V> {
        seq_map(self.entries@)
    }
}

impl<K: Key, V: Copy> Table<K, V> {
    /// No key stands twice in the table.
    pub closed spec fn wf(&self) -> bool {
        seq_distinct(self.entries@)
    }

    /// The sum of `weight` over all entries.
    pub closed spec fn total(&self, weight: spec_fn(K, V) -> int) -> int {
        seq_total(self.entries@, weight)
    }

    /// What the entry under `k` adds to `total`: its weight, or 0 where the
    /// table has no such entry.
    pub open spec fn share(&self, weight: spec_fn(K, V) -> int, k: K) -> int {
        if self@.contains_key(k) {
            weight(k, self@[k])
        } else {
            0
        }
    }

    /// The empty table.
    pub fn new() -> (t: Self)
        ensures
            t.wf(),
            t@ == Map::<K, V>::empty(),
            forall|weight: spec_fn(K, V) -> int| #[trigger] t.total(weight) == 0,
    {
        let t = Table { entries: Vec::new() };
        assert(t@ =~= Map::<K, V>::empty());
        t
    }

    fn position(&self, k: &K) -> (r: Option<usize>)
        requires
            self.wf(),
        ensures
            match r {
                Some(i) => i < self.entries@.len() && self.entries@[i as int].0 == *k,
                None => !seq_has_key(self.entries@, *k),
            },
    {
        let mut i: usize = 0;
        while i < self.entries.len()
            invariant
                i <= self.entries@.len(),
                forall|j: int| 0 <= j < i ==> (#[trigger] self.entries@[j]).0 != *k,
            decreases self.entries@.len() - i,
        {
            if self.entries[i].0.same(k) {
                return Some(i);
            }
            i += 1;
        }
        None
    }

    /// The value under `k`, if there is one.
    pub fn get(&self, k: &K) -> (r: Option<V>)
        requires
            self.wf(),
        ensures
            r == if self@.contains_key(*k) {
                Some(self@[*k])
            } else {
                None
            },
    {
        match self.position(k) {
            Some(i) => {
                proof {
                    lemma_map_index(self.entries@, i as int);
                }
                Some(self.entries[i].1)
            },
            None => None,
        }
    }

    /// Whether the table has an entry under `k`.
    pub fn contains(&self, k: &K) -> (b: bool)
        requires
            self.wf(),
        ensures
            b == self@.contains_key(*k),
    {
        self.position(k).is_some()
    }

    /// Puts `v` under `k`, in place of what stood there.
    pub fn insert(&mut self, k: K, v: V)
        requires
            old(self).wf(),
        ensures
            final(self).wf(),
            final(self)@ == old(self)@.insert(k, v),
            forall|weight: spec_fn(K, V) -> int| #[trigger]
                final(self).total(weight) == old(self).total(weight) - old(self).share(weight, k)
                    + weight(k, v),
    {
        let ghost before = self.entries@;
        match self.position(&k) {
            Some(i) => {
                proof {
                    lemma_map_index(before, i as int);
                }
                self.entries[i] = (k, v);
                proof {
                    let after = self.entries@;
                    assert(after == before.update(i as int, (k, v)));
                    assert forall|key: K| seq_has_key(after, key) <==> seq_has_key(
                        before,
                        key,
                    ) by {
                        if seq_has_key(after, key) {
                            let j = seq_index_of(after, key);
                            assert(before[j].0 == key);
                        }
                        if seq_has_key(before, key) {
                            let j = seq_index_of(before, key);
                            assert(after[j].0 == key);
                        }
                    }
                    assert forall|key: K| seq_has_key(after, key) implies seq_map(after)[key]
                        == seq_map(before).insert(k, v)[key] by {
                        let j = seq_index_of(after, key);
                        lemma_map_index(after, j);
                        lemma_map_index(before, j);
                    }
                    assert(seq_map(after) =~= seq_map(before).insert(k, v));
                    assert forall|weight: spec_fn(K, V) -> int| #[trigger]
                        seq_total(after, weight) == seq_total(before, weight) - weight(
                            k,
                            seq_map(before)[k],
                        ) + weight(k, v) by {
                        lemma_total_update(before, i as int, (k, v), weight);
                    }
                }
            },
            None => {
                self.entries.push((k, v));
                proof {
                    let after = self.entries@;
                    assert(after == before.push((k, v)));
                    assert(after[before.len() as int].0 == k);
                    assert forall|key: K| seq_has_key(after, key) <==> (seq_has_key(before, key)
                        || key == k) by {
                        if seq_has_key(after, key) {
                            let j = seq_index_of(after, key);
                            if j < before.len() {
                                assert(before[j].0 == key);
                            }
                        }
                        if seq_has_key(before, key) {
                            let j = seq_index_of(before, key);
                            assert(after[j].0 == key);
                        }
                    }
                    assert forall|key: K| seq_has_key(after, key) implies seq_map(after)[key]
                        == seq_map(before).insert(k, v)[key] by {
                        let j = seq_index_of(after, key);
                        lemma_map_index(after, j);
                        if j < before.len() {
                            lemma_map_index(before, j);
                        }
                    }
                    assert(seq_map(after) =~= seq_map(before).insert(k, v));
                    assert forall|weight: spec_fn(K, V) -> int| #[trigger]
                        seq_total(after, weight) == seq_total(before, weight) + weight(k, v) by {
                        lemma_total_push(before, (k, v), weight);
                    }
                }
            },
        }
    }

    /// Takes out the entry under `k`, if there is one.
    pub fn remove(&mut self, k: &K)
        requires
            old(self).wf(),
        ensures
            final(self).wf(),
            final(self)@ == old(self)@.remove(*k),
            forall|weight: spec_fn(K, V) -> int| #[trigger]
                final(self).total(weight) == old(self).total(weight) - old(self).share(weight, *k),
    {
        let ghost before = self.entries@;
        match self.position(k) {
            Some(i) => {
                proof {
                    lemma_map_index(before, i as int);
                }
                self.entries.remove(i);
                proof {
                    let after = self.entries@;
                    let at = i as int;
                    assert(after == before.remove(at));
                    assert forall|a: int, b: int|
                        0 <= a < after.len() && 0 <= b < after.len() && (#[trigger] after[a]).0 == (
                        #[trigger] after[b]).0 implies a == b by {
                        let a0 = if a < at { a } else { a + 1 };
                        let b0 = if b < at { b } else { b + 1 };
                        assert(before[a0] == after[a]);
                        assert(before[b0] == after[b]);
                    }
                    assert forall|key: K| seq_has_key(after, key) <==> (seq_has_key(before, key)
                        && key != *k) by {
                        if seq_has_key(after, key) {
                            let j = seq_index_of(after, key);
                            let j0 = if j < at { j } else { j + 1 };
                            assert(before[j0] == after[j]);
                        }
                        if seq_has_key(before, key) && key != *k {
                            let j = seq_index_of(before, key);
                            let j1 = if j < at { j } else { j - 1 };
                            assert(after[j1] == before[j]);
                        }
                    }
                    assert forall|key: K| seq_has_key(after, key) implies seq_map(after)[key]
                        == seq_map(before)[key] by {
                        let j = seq_index_of(after, key);
                        let j0 = if j < at { j } else { j + 1 };
                        assert(before[j0] == after[j]);
                        lemma_map_index(after, j);
                        lemma_map_index(before, j0);
                    }
                    assert(seq_map(after) =~= seq_map(before).remove(*k));
                    assert forall|weight: spec_fn(K, V) -> int| #[trigger]
                        seq_total(after, weight) == seq_total(before, weight) - weight(
                            *k,
                            seq_map(before)[*k],
                        ) by {
                        lemma_total_remove(before, at, weight);
                    }
                }
            },
            None => {
                assert(seq_map(before) =~= seq_map(before).remove(*k));
            },
        }
    }

    /// A copy of the table.
    pub fn snapshot(&self) -> (t: Self)
        requires
            self.wf(),
        ensures
            t.wf(),
            t@ == self@,
            forall|weight: spec_fn(K, V) -> int| #[trigger] t.total(weight) == self.total(weight),
    {
        let mut entries: Vec<(K, V)> = Vec::new();
        let mut i: usize = 0;
        while i < self.entries.len()
            invariant
                i <= self.entries@.len(),
                entries@ == self.entries@.take(i as int),
            decreases self.entries@.len() - i,
        {
            entries.push(self.entries[i]);
            assert(self.entries@.take(i + 1) =~= self.entries@.take(i as int).push(
                self.entries@[i as int],
            ));
            i += 1;
        }
        assert(self.entries@.take(i as int) =~= self.entries@);
        Table { entries }
    }

    /// An entry's share is at most the total, where no weight is negative.
    pub proof fn lemma_share_le_total(&self, weight: spec_fn(K, V) -> int, k: K)
        requires
            self.wf(),
            forall|key: K, v: V| #[trigger] weight(key, v) >= 0,
        ensures
            0 <= self.share(weight, k) <= self.total(weight),
    {
        lemma_total_nonnegative(self.entries@, weight);
        if self@.contains_key(k) {
            let i = seq_index_of(self.entries@, k);
            lemma_map_index(self.entries@, i);
            lemma_total_bound(self.entries@, i, weight);
        }
    }

    /// Two entries' shares together are at most the total, where no weight is
    /// negative.
    pub proof fn lemma_pair_le_total(&self, weight: spec_fn(K, V) -> int, first: K, second: K)
        requires
            self.wf(),
            forall|key: K, v: V| #[trigger] weight(key, v) >= 0,
            first != second,
        ensures
            self.share(weight, first) + self.share(weight, second) <= self.total(weight),
    {
        lemma_total_nonnegative(self.entries@, weight);
        if self@.contains_key(first) && self@.contains_key(second) {
            let i = seq_index_of(self.entries@, first);
            let j = seq_index_of(self.entries@, second);
            lemma_map_index(self.entries@, i);
            lemma_map_index(self.entries@, j);
            lemma_total_pair(self.entries@, i, j, weight);
        } else {
            self.lemma_share_le_total(weight, first);
            self.lemma_share_le_total(weight, second);
        }
    }

    /// A weight that is 0 on every entry has total 0.
    pub proof fn lemma_total_vanishes(&self, weight: spec_fn(K, V) -> int)
        requires
            self.wf(),
            forall|k: K| #[trigger] self@.contains_key(k) ==> weight(k, self@[k]) == 0,
        ensures
            self.total(weight) == 0,
    {
        assert forall|i: int| 0 <= i < self.entries@.len() implies weight(
            self.entries@[i].0,
            self.entries@[i].1,
        ) == 0 by {
            lemma_map_index(self.entries@, i);
            assert(self@.contains_key(self.entries@[i].0));
        }
        lemma_total_zero(self.entries@, weight);
    }
}

} // verus!
