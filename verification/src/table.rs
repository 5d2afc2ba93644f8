//! A small map from text to records, kept as a list of entries in the order
//! in which their keys first arrived.

use crate::text::str_eq;
use vstd::prelude::*;

verus! {

/// No two entries of `entries` have the same key.
pub open spec fn keys_distinct<T>(entries: Seq<(String, T)>) -> bool {
    forall|i: int, j: int|
        0 <= i < j < entries.len() ==> (#[trigger] entries[i]).0@ != (#[trigger] entries[j]).0@
}

/// Some entry of `entries` has the key `key`.
pub open spec fn has_key<T>(entries: Seq<(String, T)>, key: Seq<char>) -> bool {
    exists|i: int| 0 <= i < entries.len() && (#[trigger] entries[i]).0@ == key
}

/// The position of an entry of `entries` with the key `key`.
pub open spec fn position_of<T>(entries: Seq<(String, T)>, key: Seq<char>) -> int {
    choose|i: int| 0 <= i < entries.len() && (#[trigger] entries[i]).0@ == key
}

/// The map that a list of entries with distinct keys stands for.
pub open spec fn entry_map<T>(entries: Seq<(String, T)>) -> Map<Seq<char>, T> {
    Map::new(
        |key: Seq<char>| has_key(entries, key),
        |key: Seq<char>| entries[position_of(entries, key)].1,
    )
}

/// The records of a list of entries, without their keys.
pub open spec fn records_of<T>(entries: Seq<(String, T)>) -> Seq<T> {
    Seq::new(entries.len(), |i: int| entries[i].1)
}

/// In a list with distinct keys, an entry is found under its key.
pub proof fn lemma_entry_found<T>(entries: Seq<(String, T)>, i: int)
    requires
        keys_distinct(entries),
        0 <= i < entries.len(),
    ensures
        entry_map(entries).contains_key(entries[i].0@),
        entry_map(entries)[entries[i].0@] == entries[i].1,
{
    let key = entries[i].0@;
    assert(has_key(entries, key));
    let p = position_of(entries, key);
    assert(entries[p].0@ == key);
    assert(p == i);
}

/// A list of entries with distinct keys, extended by an entry with a new
/// key, stands for the map with that entry stored.
pub proof fn lemma_entry_map_push<T>(entries: Seq<(String, T)>, entry: (String, T))
    requires
        keys_distinct(entries),
        !has_key(entries, entry.0@),
    ensures
        keys_distinct(entries.push(entry)),
        entry_map(entries.push(entry)) == entry_map(entries).insert(entry.0@, entry.1),
{
    let after = entries.push(entry);
    let last = entries.len() as int;
    assert(after[last] == entry);
    assert forall|i: int, j: int| 0 <= i < j < after.len() implies (#[trigger] after[i]).0@ != (
    #[trigger] after[j]).0@ by {
        if j == last {
            assert(entries[i].0@ != entry.0@);
        } else {
            assert(after[i] == entries[i] && after[j] == entries[j]);
        }
    }
    assert forall|k: Seq<char>| has_key(after, k) == (has_key(entries, k) || k == entry.0@) by {
        if has_key(entries, k) {
            let p = position_of(entries, k);
            assert(after[p].0@ == k);
        }
        if has_key(after, k) && k != entry.0@ {
            let p = position_of(after, k);
            assert(entries[p].0@ == k);
        }
    }
    assert forall|k: Seq<char>| has_key(after, k) implies entry_map(after)[k] == entry_map(
        entries,
    ).insert(entry.0@, entry.1)[k] by {
        let p = position_of(after, k);
        if k != entry.0@ {
            let q = position_of(entries, k);
            assert(after[q].0@ == k);
            assert(p == q);
        } else {
            assert(p == last);
        }
    }
    assert(entry_map(after) =~= entry_map(entries).insert(entry.0@, entry.1));
}

/// A list of entries with distinct keys, with the record of one entry
/// replaced, stands for the map with that record stored under the key of
/// the entry.
pub proof fn lemma_entry_map_update<T>(entries: Seq<(String, T)>, i: int, entry: (String, T))
    requires
        keys_distinct(entries),
        0 <= i < entries.len(),
        entries[i].0@ == entry.0@,
    ensures
        keys_distinct(entries.update(i, entry)),
        entry_map(entries.update(i, entry)) == entry_map(entries).insert(entry.0@, entry.1),
{
    let after = entries.update(i, entry);
    assert forall|a: int, b: int| 0 <= a < b < after.len() implies (#[trigger] after[a]).0@ != (
    #[trigger] after[b]).0@ by {
        assert(after[a].0@ == entries[a].0@ && after[b].0@ == entries[b].0@);
    }
    assert forall|k: Seq<char>| has_key(after, k) == has_key(entries, k) by {
        if has_key(entries, k) {
            let p = position_of(entries, k);
            assert(after[p].0@ == k);
        }
        if has_key(after, k) {
            let p = position_of(after, k);
            assert(entries[p].0@ == k);
        }
    }
    assert(has_key(entries, entry.0@));
    assert forall|k: Seq<char>| has_key(after, k) implies entry_map(after)[k] == entry_map(
        entries,
    ).insert(entry.0@, entry.1)[k] by {
        let p = position_of(after, k);
        let q = position_of(entries, k);
        assert(entries[p].0@ == k);
        assert(p == q);
    }
    assert(entry_map(after) =~= entry_map(entries).insert(entry.0@, entry.1));
}

/// A list of entries with distinct keys, with one entry taken out, stands
/// for the map without the key of that entry.
pub proof fn lemma_entry_map_remove<T>(entries: Seq<(String, T)>, i: int)
    requires
        keys_distinct(entries),
        0 <= i < entries.len(),
    ensures
        keys_distinct(entries.remove(i)),
        entry_map(entries.remove(i)) == entry_map(entries).remove(entries[i].0@),
{
    let after = entries.remove(i);
    let gone = entries[i].0@;
    assert forall|a: int, b: int| 0 <= a < b < after.len() implies (#[trigger] after[a]).0@ != (
    #[trigger] after[b]).0@ by {
        let a0 = if a < i { a } else { a + 1 };
        let b0 = if b < i { b } else { b + 1 };
        assert(after[a] == entries[a0] && after[b] == entries[b0]);
    }
    assert forall|k: Seq<char>| has_key(after, k) == (has_key(entries, k) && k != gone) by {
        if has_key(entries, k) && k != gone {
            let p = position_of(entries, k);
            let shifted = if p < i { p } else { p - 1 };
            assert(after[shifted] == entries[p]);
        }
        if has_key(after, k) {
            let p = position_of(after, k);
            let p0 = if p < i { p } else { p + 1 };
            assert(after[p] == entries[p0]);
            assert(entries[p0].0@ == k);
        }
    }
    assert forall|k: Seq<char>| has_key(after, k) implies entry_map(after)[k] == entry_map(
        entries,
    ).remove(gone)[k] by {
        let p = position_of(after, k);
        let p0 = if p < i { p } else { p + 1 };
        assert(after[p] == entries[p0]);
        let q = position_of(entries, k);
        assert(entries[p0].0@ == k);
        assert(q == p0);
    }
    assert(entry_map(after) =~= entry_map(entries).remove(gone));
}

/// The position of the entry of `entries` with the key `key`, if there is
/// one.
fn find<T>(entries: &Vec<(String, T)>, key: &str) -> (found: Option<usize>)
    ensures
        match found {
            Some(i) => i < entries@.len() && entries@[i as int].0@ == key@,
            None => !has_key(entries@, key@),
        },
{
    let mut i: usize = 0;
    while i < entries.len()
        invariant
            i <= entries.len(),
            forall|j: int| 0 <= j < i ==> (#[trigger] entries@[j]).0@ != key@,
        decreases entries.len() - i,
    {
        if str_eq(entries[i].0.as_str(), key) {
            return Some(i);
        }
        i += 1;
    }
    None
}

/// A map from keys, which are text, to records. No key occurs twice; the
/// entries keep the order in which their keys first arrived.
#[derive(Debug)]
pub struct Table<T> {
    entries: Vec<(String, T)>,
}

impl<T> Table<T> {
    #[verifier::type_invariant]
    spec fn inv(self) -> bool {
        keys_distinct(self.entries@)
    }

    /// The entries in the order in which their keys first arrived.
    pub closed spec fn entries(self) -> Seq<(String, T)> {
        self.entries@
    }

    /// The map that the table stands for.
    pub open spec fn view(self) -> Map<Seq<char>, T> {
        entry_map(self.entries())
    }

    /// The records of the table in the order in which their keys first
    /// arrived.
    pub open spec fn records(self) -> Seq<T> {
        records_of(self.entries())
    }

    /// The empty table.
    pub fn new() -> (table: Table<T>)
        ensures
            table@ == Map::<Seq<char>, T>::empty(),
            table.entries().len() == 0,
    {
        let table = Table { entries: Vec::new() };
        assert(table@ =~= Map::<Seq<char>, T>::empty());
        table
    }

    /// States what holds of every table: its keys are distinct, so that
    /// each entry is found under its key.
    pub fn distinct(&self)
        ensures
            keys_distinct(self.entries()),
    {
        proof {
            use_type_invariant(self);
        }
    }

    /// The number of entries.
    pub fn len(&self) -> (count: usize)
        ensures
            count == self.entries().len(),
    {
        self.entries.len()
    }

    /// Whether the table has no entry.
    pub fn is_empty(&self) -> (empty: bool)
        ensures
            empty == (self.entries().len() == 0),
            empty == (self@ == Map::<Seq<char>, T>::empty()),
    {
        let empty = self.entries.len() == 0;
        proof {
            if empty {
                assert(self@ =~= Map::<Seq<char>, T>::empty());
            } else {
                assert(has_key(self.entries(), self.entries()[0].0@));
                assert(self@.dom().contains(self.entries()[0].0@));
            }
        }
        empty
    }

    /// The key of the entry at `index`.
    pub fn key_at(&self, index: usize) -> (key: &String)
        requires
            index < self.entries().len(),
        ensures
            *key == self.entries()[index as int].0,
            self@.contains_key(key@),
    {
        proof {
            assert(has_key(self.entries(), self.entries()[index as int].0@));
        }
        &self.entries[index].0
    }

    /// The record of the entry at `index`.
    pub fn value_at(&self, index: usize) -> (value: &T)
        requires
            index < self.entries().len(),
        ensures
            *value == self.entries()[index as int].1,
            *value == self.records()[index as int],
            self@[self.entries()[index as int].0@] == *value,
    {
        proof {
            use_type_invariant(self);
            lemma_entry_found(self.entries(), index as int);
        }
        &self.entries[index].1
    }

    /// Whether the table has an entry for `key`.
    pub fn contains_key(&self, key: &str) -> (present: bool)
        ensures
            present == self@.contains_key(key@),
    {
        find(&self.entries, key).is_some()
    }

    /// The record stored for `key`, if there is one.
    pub fn get(&self, key: &str) -> (value: Option<&T>)
        ensures
            match value {
                Some(v) => self@.contains_key(key@) && self@[key@] == *v,
                None => !self@.contains_key(key@),
            },
    {
        match find(&self.entries, key) {
            Some(i) => {
                proof {
                    use_type_invariant(self);
                    lemma_entry_found(self.entries(), i as int);
                }
                Some(&self.entries[i].1)
            },
            None => None,
        }
    }

    /// Stores `value` for `key`, in place of any record stored for it
    /// before. A new key goes to the end; a key that is there keeps its
    /// place.
    pub fn insert(&mut self, key: String, value: T)
        ensures
            final(self)@ == old(self)@.insert(key@, value),
            old(self)@.contains_key(key@) ==> final(self).entries().len() == old(self).entries().len(),
            !old(self)@.contains_key(key@) ==> final(self).entries() == old(self).entries().push(
                (key, value),
            ),
    {
        let mut taken = Table::new();
        std::mem::swap(self, &mut taken);
        proof {
            use_type_invariant(&taken);
        }
        let Table { entries } = taken;
        let mut entries = entries;
        match find(&entries, key.as_str()) {
            Some(i) => {
                proof {
                    lemma_entry_map_update(entries@, i as int, (key, value));
                    assert(has_key(entries@, key@));
                }
                entries.set(i, (key, value));
            },
            None => {
                proof {
                    lemma_entry_map_push(entries@, (key, value));
                }
                entries.push((key, value));
            },
        }
        *self = Table { entries };
    }

    /// Takes the entry for `key` out and hands its record back, if there
    /// is one. The other entries keep their order.
    pub fn remove(&mut self, key: &str) -> (removed: Option<T>)
        ensures
            final(self)@ == old(self)@.remove(key@),
            match removed {
                Some(value) => old(self)@.contains_key(key@) && old(self)@[key@] == value,
                None => !old(self)@.contains_key(key@) && final(self).entries() == old(self).entries(),
            },
    {
        let mut taken = Table::new();
        std::mem::swap(self, &mut taken);
        proof {
            use_type_invariant(&taken);
        }
        let Table { entries } = taken;
        let mut entries = entries;
        let removed = match find(&entries, key) {
            Some(i) => {
                proof {
                    lemma_entry_map_remove(entries@, i as int);
                    lemma_entry_found(entries@, i as int);
                }
                let entry = entries.remove(i);
                Some(entry.1)
            },
            None => {
                proof {
                    assert(entry_map(entries@).remove(key@) =~= entry_map(entries@));
                }
                None
            },
        };
        *self = Table { entries };
        removed
    }
}

/// The references `refs` show the records `values`, one for one.
pub open spec fn shows<T>(refs: Seq<&T>, values: Seq<T>) -> bool {
    refs.len() == values.len() && forall|k: int| 0 <= k < refs.len() ==> *(#[trigger] refs[k])
        == values[k]
}

impl<T> Table<T> {
    /// All records of the table, in the order in which their keys first
    /// arrived.
    pub fn all(&self) -> (list: Vec<&T>)
        ensures
            shows(list@, self.records()),
    {
        let mut list: Vec<&T> = Vec::new();
        let mut i: usize = 0;
        while i < self.entries.len()
            invariant
                i <= self.entries.len(),
                list@.len() == i,
                forall|k: int| 0 <= k < i ==> *(#[trigger] list@[k]) == self.entries@[k].1,
            decreases self.entries.len() - i,
        {
            list.push(&self.entries[i].1);
            i += 1;
        }
        list
    }
}

} // verus!
