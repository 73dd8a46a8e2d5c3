//! A small table keyed by strings. It holds its entries in insertion order
//! and never holds a key twice; its model is a map from the characters of a
//! key to the value stored under it.

use vstd::prelude::*;
use crate::text::str_eq;

verus! {

/// One entry of a table.
#[derive(Debug)]
pub struct Entry<V> {
    pub key: String,
    pub value: V,
}

/// No two entries have the same key.
pub open spec fn distinct_keys<V>(entries: Seq<Entry<V>>) -> bool {
    forall|i: int, j: int|
        0 <= i < entries.len() && 0 <= j < entries.len() && i != j ==> entries[i].key@
            != entries[j].key@
}

/// Whether some entry has the key `key`.
pub open spec fn has_key<V>(entries: Seq<Entry<V>>, key: Seq<char>) -> bool {
    exists|i: int| 0 <= i < entries.len() && #[trigger] entries[i].key@ == key
}

/// Position of an entry with the key `key`.
pub open spec fn index_of_key<V>(entries: Seq<Entry<V>>, key: Seq<char>) -> int {
    choose|i: int| 0 <= i < entries.len() && #[trigger] entries[i].key@ == key
}

/// The map that a sequence of entries stands for.
pub open spec fn entries_map<V>(entries: Seq<Entry<V>>) -> Map<Seq<char>, V> {
    Map::new(
        |key: Seq<char>| has_key(entries, key),
        |key: Seq<char>| entries[index_of_key(entries, key)].value,
    )
}

/// In a sequence of distinct keys, the map sends each entry's key to that
/// entry's value.
pub proof fn lemma_entry_is_mapped<V>(entries: Seq<Entry<V>>, i: int)
    requires
        distinct_keys(entries),
        0 <= i < entries.len(),
    ensures
        entries_map(entries).contains_key(entries[i].key@),
        entries_map(entries)[entries[i].key@] == entries[i].value,
{
    let key = entries[i].key@;
    assert(has_key(entries, key));
    let j = index_of_key(entries, key);
    assert(j == i);
}

/// A table from strings to values of type `V`.
#[derive(Debug)]
pub struct KeyedStore<V> {
    entries: Vec<Entry<V>>,
}

impl<V> View for KeyedStore<V> {
    type V = Map<Seq<char>, V>;

    closed spec fn view(&self) -> Map<Seq<char>, V> {
        entries_map(self.entries@)
    }
}

impl<V> KeyedStore<V> {
    /// No key is held twice.
    pub closed spec fn well_formed(&self) -> bool {
        distinct_keys(self.entries@)
    }

    /// An empty table.
    pub fn new() -> (store: Self)
        ensures
            store.well_formed(),
            store@ == Map::<Seq<char>, V>::empty(),
    {
        let store = KeyedStore { entries: Vec::new() };
        assert(store@ =~= Map::<Seq<char>, V>::empty());
        store
    }

    /// The number of keys.
    pub fn len(&self) -> (n: usize)
        requires
            self.well_formed(),
        ensures
            self@.dom().finite(),
            n == self@.dom().len(),
    {
        proof {
            lemma_domain_size(self.entries@);
        }
        self.entries.len()
    }

    /// Whether no key is held twice.
    pub fn is_well_formed(&self) -> (ok: bool)
        ensures
            ok == self.well_formed(),
    {
        let mut i: usize = 0;
        while i < self.entries.len()
            invariant
                i <= self.entries.len(),
                forall|a: int, b: int|
                    0 <= a < i && 0 <= b < a ==> self.entries@[a].key@ != self.entries@[b].key@,
            decreases self.entries.len() - i,
        {
            let mut j: usize = 0;
            while j < i
                invariant
                    j <= i < self.entries.len(),
                    forall|b: int| 0 <= b < j ==> self.entries@[i as int].key@ != self.entries@[b].key@,
                decreases i - j,
            {
                if str_eq(self.entries[i].key.as_str(), self.entries[j].key.as_str()) {
                    return false;
                }
                j = j + 1;
            }
            i = i + 1;
        }
        assert forall|a: int, b: int|
            0 <= a < self.entries@.len() && 0 <= b < self.entries@.len() && a != b implies self.entries@[a].key@
            != self.entries@[b].key@ by {
            if b < a {
                assert(self.entries@[a].key@ != self.entries@[b].key@);
            } else {
                assert(self.entries@[b].key@ != self.entries@[a].key@);
            }
        }
        true
    }

    /// The entries, in the order in which their keys were first stored.
    pub fn as_entries(&self) -> (entries: &Vec<Entry<V>>)
        requires
            self.well_formed(),
        ensures
            distinct_keys(entries@),
            entries_map(entries@) == self@,
    {
        &self.entries
    }

    /// Position of the entry under `key`, if there is one.
    fn position(&self, key: &str) -> (at: Option<usize>)
        ensures
            match at {
                Some(i) => i < self.entries@.len() && self.entries@[i as int].key@ == key@,
                None => !has_key(self.entries@, key@),
            },
    {
        let mut i: usize = 0;
        while i < self.entries.len()
            invariant
                i <= self.entries.len(),
                forall|j: int| 0 <= j < i ==> self.entries@[j].key@ != key@,
            decreases self.entries.len() - i,
        {
            if str_eq(self.entries[i].key.as_str(), key) {
                return Some(i);
            }
            i = i + 1;
        }
        None
    }

    /// Whether a value is stored under `key`.
    pub fn contains_key(&self, key: &str) -> (yes: bool)
        ensures
            yes == self@.contains_key(key@),
    {
        self.position(key).is_some()
    }

    /// The value stored under `key`, if there is one.
    pub fn get(&self, key: &str) -> (found: Option<&V>)
        requires
            self.well_formed(),
        ensures
            match found {
                Some(value) => self@.contains_key(key@) && *value == self@[key@],
                None => !self@.contains_key(key@),
            },
    {
        match self.position(key) {
            Some(i) => {
                proof {
                    lemma_entry_is_mapped(self.entries@, i as int);
                }
                Some(&self.entries[i].value)
            },
            None => None,
        }
    }

    /// Stores `value` under `key`, in place of what was stored there.
    pub fn insert(&mut self, key: String, value: V)
        requires
            old(self).well_formed(),
        ensures
            final(self).well_formed(),
            final(self)@ == old(self)@.insert(key@, value),
    {
        let ghost before = self.entries@;
        let ghost k = key@;
        match self.position(key.as_str()) {
            Some(i) => {
                self.entries.set(i, Entry { key, value });
                proof {
                    let after = self.entries@;
                    assert(distinct_keys(after));
                    assert forall|q: Seq<char>| has_key(after, q) == (has_key(before, q) || q
                        == k) by {
                        if has_key(before, q) {
                            let j = index_of_key(before, q);
                            assert(after[j].key@ == q);
                        }
                        if has_key(after, q) {
                            let j = index_of_key(after, q);
                            assert(before[j].key@ == q);
                        }
                        if q == k {
                            assert(after[i as int].key@ == q);
                        }
                    }
                    assert forall|q: Seq<char>| has_key(after, q) implies #[trigger] entries_map(
                        after,
                    )[q] == before_or(before, k, value, q) by {
                        let j = index_of_key(after, q);
                        lemma_entry_is_mapped(after, j);
                        if q != k {
                            lemma_entry_is_mapped(before, j);
                        }
                    }
                    assert(entries_map(after) =~= entries_map(before).insert(k, value));
                }
            },
            None => {
                self.entries.push(Entry { key, value });
                proof {
                    let after = self.entries@;
                    let n = before.len() as int;
                    assert(distinct_keys(after)) by {
                        assert forall|a: int, b: int|
                            0 <= a < after.len() && 0 <= b < after.len() && a != b implies after[a].key@
                            != after[b].key@ by {
                            if a < n && b < n {
                                assert(before[a].key@ != before[b].key@);
                            } else if a < n {
                                assert(before[a].key@ == after[a].key@);
                            } else {
                                assert(before[b].key@ == after[b].key@);
                            }
                        }
                    }
                    assert forall|q: Seq<char>| has_key(after, q) == (has_key(before, q) || q
                        == k) by {
                        if has_key(before, q) {
                            let j = index_of_key(before, q);
                            assert(after[j].key@ == q);
                        }
                        if has_key(after, q) {
                            let j = index_of_key(after, q);
                            if j < n {
                                assert(before[j].key@ == q);
                            }
                        }
                        if q == k {
                            assert(after[n].key@ == q);
                        }
                    }
                    assert forall|q: Seq<char>| has_key(after, q) implies #[trigger] entries_map(
                        after,
                    )[q] == before_or(before, k, value, q) by {
                        let j = index_of_key(after, q);
                        lemma_entry_is_mapped(after, j);
                        if q != k {
                            assert(j < n);
                            lemma_entry_is_mapped(before, j);
                        }
                    }
                    assert(entries_map(after) =~= entries_map(before).insert(k, value));
                }
            },
        }
    }

    /// Removes what is stored under `key`, and hands it out.
    pub fn remove(&mut self, key: &str) -> (removed: Option<V>)
        requires
            old(self).well_formed(),
        ensures
            final(self).well_formed(),
            final(self)@ == old(self)@.remove(key@),
            match removed {
                Some(value) => old(self)@.contains_key(key@) && value == old(self)@[key@],
                None => !old(self)@.contains_key(key@),
            },
    {
        let ghost before = self.entries@;
        let ghost k = key@;
        match self.position(key) {
            Some(i) => {
                proof {
                    lemma_entry_is_mapped(before, i as int);
                }
                let entry = self.entries.remove(i);
                proof {
                    let after = self.entries@;
                    let gap = i as int;
                    assert forall|a: int| 0 <= a < after.len() implies #[trigger] after[a]
                        == before[shifted(gap, a)] by {}
                    assert(distinct_keys(after)) by {
                        assert forall|a: int, b: int|
                            0 <= a < after.len() && 0 <= b < after.len() && a != b implies after[a].key@
                            != after[b].key@ by {
                            assert(after[a] == before[shifted(gap, a)]);
                            assert(after[b] == before[shifted(gap, b)]);
                        }
                    }
                    assert forall|q: Seq<char>| has_key(after, q) == (has_key(before, q) && q
                        != k) by {
                        if has_key(before, q) && q != k {
                            let j = index_of_key(before, q);
                            if j < gap {
                                assert(after[j] == before[shifted(gap, j)]);
                                assert(after[j].key@ == q);
                            } else {
                                assert(after[j - 1] == before[shifted(gap, j - 1)]);
                                assert(after[j - 1].key@ == q);
                            }
                        }
                        if has_key(after, q) {
                            let j = index_of_key(after, q);
                            assert(after[j] == before[shifted(gap, j)]);
                            assert(before[shifted(gap, j)].key@ == q);
                        }
                    }
                    assert forall|q: Seq<char>| has_key(after, q) implies #[trigger] entries_map(
                        after,
                    )[q] == entries_map(before)[q] by {
                        let j = index_of_key(after, q);
                        lemma_entry_is_mapped(after, j);
                        assert(after[j] == before[shifted(gap, j)]);
                        lemma_entry_is_mapped(before, shifted(gap, j));
                    }
                    assert(entries_map(after) =~= entries_map(before).remove(k));
                }
                Some(entry.value)
            },
            None => {
                assert(entries_map(before) =~= entries_map(before).remove(k));
                None
            },
        }
    }
}

/// The value under `q` once `value` has been stored under `k`.
spec fn before_or<V>(before: Seq<Entry<V>>, k: Seq<char>, value: V, q: Seq<char>) -> V {
    if q == k {
        value
    } else {
        entries_map(before)[q]
    }
}

/// Position, before an entry was taken out at `gap`, of the entry now at `a`.
spec fn shifted(gap: int, a: int) -> int {
    if a < gap {
        a
    } else {
        a + 1
    }
}

/// The keys of the first `n` entries.
spec fn keys_upto<V>(entries: Seq<Entry<V>>, n: int) -> Set<Seq<char>> {
    Set::new(|q: Seq<char>| exists|i: int| 0 <= i < n && #[trigger] entries[i].key@ == q)
}

/// A sequence of distinct keys has as many keys as entries.
pub proof fn lemma_domain_size<V>(entries: Seq<Entry<V>>)
    requires
        distinct_keys(entries),
    ensures
        entries_map(entries).dom().finite(),
        entries_map(entries).dom().len() == entries.len(),
{
    lemma_keys_upto_size(entries, entries.len() as int);
    assert(entries_map(entries).dom() =~= keys_upto(entries, entries.len() as int));
}

proof fn lemma_keys_upto_size<V>(entries: Seq<Entry<V>>, n: int)
    requires
        distinct_keys(entries),
        0 <= n <= entries.len(),
    ensures
        keys_upto(entries, n).finite(),
        keys_upto(entries, n).len() == n,
    decreases n,
{
    if n == 0 {
        assert(keys_upto(entries, 0) =~= Set::<Seq<char>>::empty());
    } else {
        lemma_keys_upto_size(entries, n - 1);
        let last = entries[n - 1].key@;
        assert(!keys_upto(entries, n - 1).contains(last));
        assert(keys_upto(entries, n) =~= keys_upto(entries, n - 1).insert(last));
    }
}

} // verus!
