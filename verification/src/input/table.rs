//! A small table from keys of the keyboard to keys of the keypad.
//!
//! A table holds at most one entry for each key. It is kept as a list of
//! entries; what it says of a key is what `lookup` finds in the list.

use crate::hardware::input::ChipKey;
use vstd::prelude::*;

verus! {

/// What can be the key of a table: a value that can be compared and
/// copied.
pub trait TableKey: Sized {
    /// Whether the two keys are the same.
    fn same(&self, other: &Self) -> (same: bool)
        ensures
            same == (*self == *other),
    ;

    /// A copy of this key.
    fn copied(&self) -> (copy: Self)
        ensures
            copy == *self,
    ;
}

/// What a list of entries says of `key`: the value of the last entry for
/// that key, if there is one.
pub open spec fn lookup<K>(entries: Seq<(K, ChipKey)>, key: K) -> Option<ChipKey>
    decreases entries.len(),
{
    if entries.len() == 0 {
        None
    } else if entries.last().0 == key {
        Some(entries.last().1)
    } else {
        lookup(entries.drop_last(), key)
    }
}

/// Whether no two entries have the same key.
pub open spec fn distinct_keys<K>(entries: Seq<(K, ChipKey)>) -> bool {
    forall|i: int, j: int|
        0 <= i < j < entries.len() ==> (#[trigger] entries[i]).0 != (#[trigger] entries[j]).0
}

/// What a list says of a key after an entry was added at its end.
pub proof fn lemma_lookup_push<K>(entries: Seq<(K, ChipKey)>, entry: (K, ChipKey), key: K)
    ensures
        lookup(entries.push(entry), key) == (if entry.0 == key {
            Some(entry.1)
        } else {
            lookup(entries, key)
        }),
{
    assert(entries.push(entry).drop_last() =~= entries);
}

/// A list says nothing of a key that none of its entries has.
pub proof fn lemma_lookup_none<K>(entries: Seq<(K, ChipKey)>, key: K)
    requires
        forall|i: int| 0 <= i < entries.len() ==> (#[trigger] entries[i]).0 != key,
    ensures
        lookup(entries, key) is None,
    decreases entries.len(),
{
    if entries.len() > 0 {
        assert(entries.last() == entries[entries.len() - 1]);
        assert forall|i: int| 0 <= i < entries.drop_last().len() implies (
        #[trigger] entries.drop_last()[i]).0 != key by {
            assert(entries.drop_last()[i] == entries[i]);
        }
        lemma_lookup_none(entries.drop_last(), key);
    }
}

/// What a list says of a key stands in one of its entries.
pub proof fn lemma_lookup_some<K>(entries: Seq<(K, ChipKey)>, key: K) -> (at: int)
    requires
        lookup(entries, key) is Some,
    ensures
        0 <= at < entries.len(),
        entries[at] == (key, lookup(entries, key)->0),
    decreases entries.len(),
{
    if entries.last().0 == key {
        entries.len() - 1
    } else {
        let at = lemma_lookup_some(entries.drop_last(), key);
        assert(entries.drop_last()[at] == entries[at]);
        at
    }
}

/// In a list without repeated keys, every entry is what the list says of
/// its key.
pub proof fn lemma_lookup_entry<K>(entries: Seq<(K, ChipKey)>, at: int)
    requires
        distinct_keys(entries),
        0 <= at < entries.len(),
    ensures
        lookup(entries, entries[at].0) == Some(entries[at].1),
    decreases entries.len(),
{
    if at < entries.len() - 1 {
        assert(entries.last() == entries[entries.len() - 1]);
        assert(entries[at].0 != entries[entries.len() - 1].0);
        assert forall|i: int, j: int| 0 <= i < j < entries.drop_last().len() implies (
        #[trigger] entries.drop_last()[i]).0 != (#[trigger] entries.drop_last()[j]).0 by {
            assert(entries.drop_last()[i] == entries[i]);
            assert(entries.drop_last()[j] == entries[j]);
        }
        assert(entries.drop_last()[at] == entries[at]);
        lemma_lookup_entry(entries.drop_last(), at);
    }
}

/// The entries of a table, none of them with the key of another.
pub struct Entries<K: TableKey> {
    entries: Vec<(K, ChipKey)>,
}

impl<K: TableKey> Entries<K> {
    #[verifier::type_invariant]
    spec fn well_formed(&self) -> bool {
        distinct_keys(self.entries@)
    }

    /// What the table says of `key`.
    pub closed spec fn get(&self, key: K) -> Option<ChipKey> {
        lookup(self.entries@, key)
    }

    /// An empty table.
    pub fn new() -> (table: Self)
        ensures
            forall|k: K| table.get(k) is None,
    {
        Self { entries: Vec::new() }
    }

    /// What the table says of `key`.
    pub fn find(&self, key: &K) -> (value: Option<ChipKey>)
        ensures
            value == self.get(*key),
    {
        proof {
            use_type_invariant(self);
        }
        let mut i: usize = 0;
        while i < self.entries.len()
            invariant
                i <= self.entries@.len(),
                distinct_keys(self.entries@),
                forall|j: int| 0 <= j < i ==> (#[trigger] self.entries@[j]).0 != *key,
            decreases self.entries@.len() - i,
        {
            if self.entries[i].0.same(key) {
                proof {
                    lemma_lookup_entry(self.entries@, i as int);
                }
                return Some(self.entries[i].1);
            }
            i += 1;
        }
        proof {
            lemma_lookup_none(self.entries@, *key);
        }
        None
    }

    /// The entries without the one for `key`.
    fn without(&self, key: &K) -> (rest: Vec<(K, ChipKey)>)
        ensures
            distinct_keys(rest@),
            forall|k: K|
                lookup(rest@, k) == (if k == *key {
                    None
                } else {
                    self.get(k)
                }),
    {
        proof {
            use_type_invariant(self);
        }
        let mut rest: Vec<(K, ChipKey)> = Vec::new();
        let mut i: usize = 0;
        while i < self.entries.len()
            invariant
                i <= self.entries@.len(),
                distinct_keys(self.entries@),
                distinct_keys(rest@),
                forall|k: K|
                    #[trigger] lookup(rest@, k) == (if k == *key {
                        None
                    } else {
                        lookup(self.entries@.take(i as int), k)
                    }),
            decreases self.entries@.len() - i,
        {
            let ghost before = rest@;
            let ghost seen = self.entries@.take(i as int);
            let ghost entry = self.entries@[i as int];
            proof {
                assert(self.entries@.take(i + 1) =~= seen.push(entry));
                assert forall|j: int| 0 <= j < seen.len() implies (#[trigger] seen[j]).0
                    != entry.0 by {
                    assert(seen[j] == self.entries@[j]);
                }
                lemma_lookup_none(seen, entry.0);
            }
            if !self.entries[i].0.same(key) {
                let copy = (self.entries[i].0.copied(), self.entries[i].1);
                rest.push(copy);
                proof {
                    assert(rest@ == before.push(entry));
                    assert(lookup(before, entry.0) is None);
                    assert forall|a: int, b: int| 0 <= a < b < rest@.len() implies (
                    #[trigger] rest@[a]).0 != (#[trigger] rest@[b]).0 by {
                        if b < before.len() {
                            assert(before[a].0 != before[b].0);
                        } else {
                            if before[a].0 == entry.0 {
                                lemma_lookup_entry(before, a);
                            }
                        }
                    }
                }
            }
            proof {
                assert forall|k: K|
                    #[trigger] lookup(rest@, k) == (if k == *key {
                        None
                    } else {
                        lookup(self.entries@.take(i + 1), k)
                    }) by {
                    lemma_lookup_push(seen, entry, k);
                    lemma_lookup_push(before, entry, k);
                }
            }
            i += 1;
        }
        proof {
            assert(self.entries@.take(self.entries@.len() as int) =~= self.entries@);
        }
        rest
    }

    /// Makes the table say `value` of `key`, whatever it said before.
    pub fn insert(&mut self, key: K, value: ChipKey)
        ensures
            forall|k: K|
                final(self).get(k) == (if k == key {
                    Some(value)
                } else {
                    old(self).get(k)
                }),
    {
        let mut entries = self.without(&key);
        let ghost rest = entries@;
        entries.push((key, value));
        proof {
            assert forall|k: K|
                #[trigger] lookup(entries@, k) == (if k == key {
                    Some(value)
                } else {
                    old(self).get(k)
                }) by {
                lemma_lookup_push(rest, (key, value), k);
            }
            assert forall|a: int, b: int| 0 <= a < b < entries@.len() implies (
            #[trigger] entries@[a]).0 != (#[trigger] entries@[b]).0 by {
                if b < rest.len() {
                    assert(rest[a].0 != rest[b].0);
                } else {
                    if rest[a].0 == key {
                        lemma_lookup_entry(rest, a);
                    }
                }
            }
        }
        self.entries = entries;
    }

    /// Makes the table say nothing of `key`.
    pub fn remove(&mut self, key: &K)
        ensures
            forall|k: K|
                final(self).get(k) == (if k == *key {
                    None
                } else {
                    old(self).get(k)
                }),
    {
        let entries = self.without(key);
        self.entries = entries;
    }

    /// Makes the table say nothing of any key.
    pub fn clear(&mut self)
        ensures
            forall|k: K| final(self).get(k) is None,
    {
        self.entries = Vec::new();
    }

    /// Every key of which the table says something, with what it says,
    /// each once.
    pub fn pairs(&self) -> (pairs: Vec<(K, ChipKey)>)
        ensures
            pairs@.no_duplicates(),
            forall|k: K, value: ChipKey|
                pairs@.contains((k, value)) <==> self.get(k) == Some(value),
    {
        proof {
            use_type_invariant(self);
        }
        let mut pairs: Vec<(K, ChipKey)> = Vec::new();
        let mut i: usize = 0;
        while i < self.entries.len()
            invariant
                i <= self.entries@.len(),
                pairs@ == self.entries@.take(i as int),
            decreases self.entries@.len() - i,
        {
            let copy = (self.entries[i].0.copied(), self.entries[i].1);
            pairs.push(copy);
            proof {
                assert(pairs@ =~= self.entries@.take(i + 1));
            }
            i += 1;
        }
        proof {
            assert(self.entries@.take(self.entries@.len() as int) =~= self.entries@);
            assert forall|k: K, value: ChipKey|
                pairs@.contains((k, value)) <==> self.get(k) == Some(value) by {
                if pairs@.contains((k, value)) {
                    let at = choose|at: int| 0 <= at < pairs@.len() && pairs@[at] == (k, value);
                    lemma_lookup_entry(self.entries@, at);
                }
                if self.get(k) == Some(value) {
                    let at = lemma_lookup_some(self.entries@, k);
                    assert(pairs@[at] == (k, value));
                }
            }
            assert forall|a: int, b: int| 0 <= a < pairs@.len() && 0 <= b < pairs@.len() && a
                != b implies pairs@[a] != pairs@[b] by {
                if a < b {
                    assert(pairs@[a].0 != pairs@[b].0);
                } else {
                    assert(pairs@[b].0 != pairs@[a].0);
                }
            }
        }
        pairs
    }
}

} // verus!
