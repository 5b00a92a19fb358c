use crate::address::Address;
use vstd::prelude::*;

verus! {

/// A value of which an equal copy can be made.
pub trait Duplicate: Sized {
    /// A copy of the value.
    fn duplicate(&self) -> (r: Self)
        ensures
            r == *self,
    ;
}

impl Duplicate for u64 {
    fn duplicate(&self) -> (r: u64) {
        *self
    }
}

impl Duplicate for Address {
    fn duplicate(&self) -> (r: Address) {
        *self
    }
}

/// A keyed lookup from addresses to values, in which no address occurs twice.
pub struct Table<V> {
    entries: Vec<(Address, V)>,
}

/// Whether some entry of `s` is stored under `key`.
pub open spec fn has_key<V>(s: Seq<(Address, V)>, key: Address) -> bool {
    exists|i: int| 0 <= i < s.len() && (#[trigger] s[i]).0 == key
}

/// The position of an entry stored under `key`.
pub open spec fn position<V>(s: Seq<(Address, V)>, key: Address) -> int {
    choose|i: int| 0 <= i < s.len() && (#[trigger] s[i]).0 == key
}

/// No address is the key of two entries.
pub open spec fn distinct_keys<V>(s: Seq<(Address, V)>) -> bool {
    forall|i: int, j: int|
        0 <= i < s.len() && 0 <= j < s.len() && (#[trigger] s[i]).0 == (#[trigger] s[j]).0 ==> i
            == j
}

/// The map that a sequence of entries stands for.
pub open spec fn entries_map<V>(s: Seq<(Address, V)>) -> Map<Address, V> {
    Map::new(|k: Address| has_key(s, k), |k: Address| s[position(s, k)].1)
}

/// With distinct keys, the entry at position `i` is what the map holds under its key.
pub proof fn lemma_entry_at<V>(s: Seq<(Address, V)>, i: int)
    requires
        distinct_keys(s),
        0 <= i < s.len(),
    ensures
        entries_map(s).contains_key(s[i].0),
        entries_map(s)[s[i].0] == s[i].1,
        position(s, s[i].0) == i,
{
    let k = s[i].0;
    assert(has_key(s, k));
    let p = position(s, k);
    assert(0 <= p < s.len() && s[p].0 == k);
}

impl<V: Duplicate> Table<V> {
    /// The table's invariant: its keys are distinct.
    pub closed spec fn wf(&self) -> bool {
        distinct_keys(self.entries@)
    }

    /// The map from keys to values that the table stands for.
    pub closed spec fn view(&self) -> Map<Address, V> {
        entries_map(self.entries@)
    }

    /// The empty table.
    pub fn new() -> (r: Table<V>)
        ensures
            r.wf(),
            r@ == Map::<Address, V>::empty(),
    {
        let r = Table { entries: Vec::new() };
        assert(r@ =~= Map::<Address, V>::empty());
        r
    }

    /// The position of `key` among the entries, if it is there.
    fn find(&self, key: &Address) -> (r: Option<usize>)
        requires
            self.wf(),
        ensures
            match r {
                Some(i) => i < self.entries@.len() && self.entries@[i as int].0 == *key,
                None => !has_key(self.entries@, *key),
            },
    {
        let mut i: usize = 0;
        while i < self.entries.len()
            invariant
                i <= self.entries@.len(),
                forall|j: int| 0 <= j < i ==> (#[trigger] self.entries@[j]).0 != *key,
            decreases self.entries@.len() - i,
        {
            if self.entries[i].0.same(key) {
                return Some(i);
            }
            i += 1;
        }
        None
    }

    /// The value stored under `key`, if there is one.
    pub fn get(&self, key: &Address) -> (r: Option<&V>)
        requires
            self.wf(),
        ensures
            match r {
                Some(v) => self@.contains_key(*key) && *v == self@[*key],
                None => !self@.contains_key(*key),
            },
    {
        match self.find(key) {
            Some(i) => {
                proof {
                    lemma_entry_at(self.entries@, i as int);
                }
                Some(&self.entries[i].1)
            },
            None => None,
        }
    }

    /// Stores `value` under `key`, in place of what was stored there before.
    pub fn insert(&mut self, key: Address, value: V)
        requires
            old(self).wf(),
        ensures
            final(self).wf(),
            final(self)@ == old(self)@.insert(key, value),
    {
        let ghost before = self.entries@;
        match self.find(&key) {
            Some(i) => {
                self.entries.set(i, (key, value));
                proof {
                    let after = self.entries@;
                    assert(after == before.update(i as int, (key, value)));
                    assert(forall|j: int| 0 <= j < after.len() ==> (#[trigger] after[j]).0 == before[j].0);
                    assert(distinct_keys(after));
                    assert forall|k: Address| has_key(after, k) == (k == key || has_key(before, k)) by {
                        if has_key(after, k) {
                            let p = position(after, k);
                            assert(before[p].0 == k);
                        }
                        if has_key(before, k) {
                            let p = position(before, k);
                            assert(after[p].0 == k);
                        }
                        if k == key {
                            assert(after[i as int].0 == k);
                        }
                    }
                    assert forall|k: Address| has_key(after, k) implies entries_map(after)[k] == entries_map(before).insert(key, value)[k] by {
                        let p = position(after, k);
                        lemma_entry_at(after, p);
                        if k != key {
                            lemma_entry_at(before, p);
                        } else {
                            lemma_entry_at(after, i as int);
                        }
                    }
                    assert(entries_map(after) =~= entries_map(before).insert(key, value));
                }
            },
            None => {
                self.entries.push((key, value));
                proof {
                    let after = self.entries@;
                    let n = before.len() as int;
                    assert(after == before.push((key, value)));
                    assert(forall|j: int| 0 <= j < n ==> (#[trigger] after[j]) == before[j]);
                    assert(after[n] == (key, value));
                    assert(distinct_keys(after)) by {
                        assert forall|a: int, b: int|
                            0 <= a < after.len() && 0 <= b < after.len() && (#[trigger] after[a]).0 == (#[trigger] after[b]).0 implies a == b by {
                            if a < n && b < n {
                                assert(before[a].0 == before[b].0);
                            } else if a < n {
                                assert(before[a].0 == key);
                            } else if b < n {
                                assert(before[b].0 == key);
                            }
                        }
                    }
                    assert forall|k: Address| has_key(after, k) == (k == key || has_key(before, k)) by {
                        if has_key(after, k) {
                            let p = position(after, k);
                            if p < n {
                                assert(before[p].0 == k);
                            }
                        }
                        if has_key(before, k) {
                            let p = position(before, k);
                            assert(after[p].0 == k);
                        }
                        if k == key {
                            assert(after[n].0 == k);
                        }
                    }
                    assert forall|k: Address| has_key(after, k) implies entries_map(after)[k] == entries_map(before).insert(key, value)[k] by {
                        let p = position(after, k);
                        lemma_entry_at(after, p);
                        if k != key {
                            assert(p < n);
                            lemma_entry_at(before, p);
                        } else {
                            lemma_entry_at(after, n);
                        }
                    }
                    assert(entries_map(after) =~= entries_map(before).insert(key, value));
                }
            },
        }
    }

    /// Removes what is stored under `key`, if anything.
    pub fn remove(&mut self, key: &Address)
        requires
            old(self).wf(),
        ensures
            final(self).wf(),
            final(self)@ == old(self)@.remove(*key),
    {
        let ghost before = self.entries@;
        match self.find(key) {
            Some(i) => {
                self.entries.remove(i);
                proof {
                    let after = self.entries@;
                    let at = i as int;
                    assert(after == before.remove(at));
                    assert(forall|j: int| 0 <= j < at ==> (#[trigger] after[j]) == before[j]);
                    assert(forall|j: int| at <= j < after.len() ==> (#[trigger] after[j]) == before[j + 1]);
                    assert(distinct_keys(after)) by {
                        assert forall|a: int, b: int|
                            0 <= a < after.len() && 0 <= b < after.len() && (#[trigger] after[a]).0 == (#[trigger] after[b]).0 implies a == b by {
                            let a0 = if a < at { a } else { a + 1 };
                            let b0 = if b < at { b } else { b + 1 };
                            assert(before[a0].0 == before[b0].0);
                        }
                    }
                    assert forall|k: Address| has_key(after, k) == (k != *key && has_key(before, k)) by {
                        if has_key(after, k) {
                            let p = position(after, k);
                            let was = if p < at { p } else { p + 1 };
                            assert(before[was].0 == k);
                            assert(before[at].0 == *key);
                        }
                        if k != *key && has_key(before, k) {
                            let p = position(before, k);
                            let moved = if p < at { p } else { p - 1 };
                            assert(after[moved].0 == k);
                        }
                    }
                    assert forall|k: Address| has_key(after, k) implies entries_map(after)[k] == entries_map(before)[k] by {
                        let p = position(after, k);
                        let was = if p < at { p } else { p + 1 };
                        lemma_entry_at(after, p);
                        lemma_entry_at(before, was);
                    }
                    assert(entries_map(after) =~= entries_map(before).remove(*key));
                }
            },
            None => {
                assert(entries_map(before) =~= entries_map(before).remove(*key));
            },
        }
    }

    /// A copy of the table.
    pub fn duplicate(&self) -> (r: Table<V>)
        requires
            self.wf(),
        ensures
            r.wf(),
            r@ == self@,
    {
        let mut entries: Vec<(Address, V)> = Vec::new();
        let mut i: usize = 0;
        while i < self.entries.len()
            invariant
                i <= self.entries@.len(),
                entries@ == self.entries@.subrange(0, i as int),
            decreases self.entries@.len() - i,
        {
            let key = self.entries[i].0;
            let value = self.entries[i].1.duplicate();
            entries.push((key, value));
            i += 1;
            assert(entries@ =~= self.entries@.subrange(0, i as int));
        }
        assert(entries@ =~= self.entries@);
        Table { entries }
    }
}

} // verus!
