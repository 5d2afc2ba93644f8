//! A small map from text to text, used for the free-form tags of a record.

use crate::table::{entry_map, has_key, keys_distinct, lemma_entry_map_push, Table};
use crate::text::join2;
use vstd::prelude::*;

verus! {

/// The map `records` with each record read as text.
pub open spec fn as_text(records: Map<Seq<char>, String>) -> Map<Seq<char>, Seq<char>> {
    records.map_values(|value: String| value@)
}

/// The map `tags` with `prefix` put in front of every key.
pub open spec fn with_prefix(prefix: Seq<char>, tags: Map<Seq<char>, Seq<char>>) -> Map<
    Seq<char>,
    Seq<char>,
> {
    Map::new(
        |key: Seq<char>|
            key.len() >= prefix.len() && key.subrange(0, prefix.len() as int) == prefix
                && tags.contains_key(key.subrange(prefix.len() as int, key.len() as int)),
        |key: Seq<char>| tags[key.subrange(prefix.len() as int, key.len() as int)],
    )
}

/// Under a prefix, the empty map stays empty.
pub proof fn lemma_with_prefix_empty(prefix: Seq<char>)
    ensures
        with_prefix(prefix, Map::<Seq<char>, Seq<char>>::empty()) == Map::<
            Seq<char>,
            Seq<char>,
        >::empty(),
{
    assert(with_prefix(prefix, Map::<Seq<char>, Seq<char>>::empty()) =~= Map::<
        Seq<char>,
        Seq<char>,
    >::empty());
}

/// Putting a prefix in front of the keys commutes with storing an entry.
pub proof fn lemma_with_prefix_insert(
    prefix: Seq<char>,
    tags: Map<Seq<char>, Seq<char>>,
    key: Seq<char>,
    value: Seq<char>,
)
    ensures
        with_prefix(prefix, tags.insert(key, value)) == with_prefix(prefix, tags).insert(
            prefix + key,
            value,
        ),
{
    let n = prefix.len() as int;
    let left = with_prefix(prefix, tags.insert(key, value));
    let right = with_prefix(prefix, tags).insert(prefix + key, value);
    assert((prefix + key).subrange(0, n) =~= prefix);
    assert((prefix + key).subrange(n, (prefix + key).len() as int) =~= key);
    assert forall|q: Seq<char>| left.contains_key(q) == right.contains_key(q) by {
        if q.len() >= n && q.subrange(0, n) == prefix {
            assert(prefix + q.subrange(n, q.len() as int) =~= q);
        }
    }
    assert forall|q: Seq<char>| left.contains_key(q) implies left[q] == right[q] by {
        assert(prefix + q.subrange(n, q.len() as int) =~= q);
    }
    assert(left =~= right);
}

/// A key under a prefix is found exactly where the key itself is found.
pub proof fn lemma_with_prefix_lookup(
    prefix: Seq<char>,
    tags: Map<Seq<char>, Seq<char>>,
    key: Seq<char>,
)
    ensures
        with_prefix(prefix, tags).contains_key(prefix + key) == tags.contains_key(key),
        tags.contains_key(key) ==> with_prefix(prefix, tags)[prefix + key] == tags[key],
{
    let n = prefix.len() as int;
    assert((prefix + key).subrange(0, n) =~= prefix);
    assert((prefix + key).subrange(n, (prefix + key).len() as int) =~= key);
}

/// A map from keys to values, both text. No key occurs twice; the entries
/// keep the order in which their keys first arrived.
#[derive(Debug)]
pub struct TagMap {
    table: Table<String>,
}

impl TagMap {
    /// The map that the tags stand for.
    pub closed spec fn view(self) -> Map<Seq<char>, Seq<char>> {
        as_text(self.table@)
    }

    /// The number of entries.
    pub closed spec fn count(self) -> nat {
        self.table.entries().len()
    }

    /// The key of the entry at `index`.
    pub closed spec fn key(self, index: int) -> Seq<char> {
        self.table.entries()[index].0@
    }

    /// The empty map.
    pub fn new() -> (tags: TagMap)
        ensures
            tags@ == Map::<Seq<char>, Seq<char>>::empty(),
            tags.count() == 0,
    {
        let tags = TagMap { table: Table::new() };
        assert(tags@ =~= Map::<Seq<char>, Seq<char>>::empty());
        tags
    }

    /// The number of entries.
    pub fn len(&self) -> (count: usize)
        ensures
            count == self.count(),
    {
        self.table.len()
    }

    /// Whether the map has no entry.
    pub fn is_empty(&self) -> (empty: bool)
        ensures
            empty == (self.count() == 0),
            empty == (self@ == Map::<Seq<char>, Seq<char>>::empty()),
    {
        let empty = self.table.is_empty();
        proof {
            if empty {
                assert(self@ =~= Map::<Seq<char>, Seq<char>>::empty());
            } else {
                let key = self.table.entries()[0].0@;
                assert(has_key(self.table.entries(), key));
                assert(self@.dom().contains(key));
            }
        }
        empty
    }

    /// The key of the entry at `index`.
    pub fn key_at(&self, index: usize) -> (key: &String)
        requires
            index < self.count(),
        ensures
            key@ == self.key(index as int),
            self@.contains_key(key@),
    {
        self.table.key_at(index)
    }

    /// The value of the entry at `index`.
    pub fn value_at(&self, index: usize) -> (value: &String)
        requires
            index < self.count(),
        ensures
            self@.contains_key(self.key(index as int)),
            self@[self.key(index as int)] == value@,
    {
        proof {
            assert(has_key(self.table.entries(), self.table.entries()[index as int].0@));
        }
        self.table.value_at(index)
    }

    /// Whether the map has an entry for `key`.
    pub fn contains_key(&self, key: &str) -> (present: bool)
        ensures
            present == self@.contains_key(key@),
    {
        self.table.contains_key(key)
    }

    /// The value stored for `key`, if there is one.
    pub fn get(&self, key: &str) -> (value: Option<&String>)
        ensures
            match value {
                Some(v) => self@.contains_key(key@) && self@[key@] == v@,
                None => !self@.contains_key(key@),
            },
    {
        self.table.get(key)
    }

    /// Stores `value` for `key`, in place of any value stored for it before.
    pub fn insert(&mut self, key: String, value: String)
        ensures
            final(self)@ == old(self)@.insert(key@, value@),
    {
        self.table.insert(key, value);
        assert(as_text(old(self).table@.insert(key@, value)) =~= as_text(old(self).table@).insert(
            key@,
            value@,
        ));
    }

    /// Stores every entry of `other` under its key with `prefix` put in
    /// front; what was stored under other keys stays.
    pub fn merge_prefixed(&mut self, prefix: &str, other: &TagMap)
        ensures
            final(self)@ == old(self)@.union_prefer_right(with_prefix(prefix@, other@)),
    {
        other.table.distinct();
        let ghost all = other.table.entries();
        proof {
            lemma_with_prefix_empty(prefix@);
            assert(all.subrange(0, 0) =~= Seq::<(String, String)>::empty());
            assert(as_text(entry_map(Seq::<(String, String)>::empty())) =~= Map::<
                Seq<char>,
                Seq<char>,
            >::empty());
            assert(self@.union_prefer_right(Map::<Seq<char>, Seq<char>>::empty()) =~= self@);
        }
        let mut i: usize = 0;
        while i < other.table.len()
            invariant
                i <= other.table.entries().len(),
                all == other.table.entries(),
                keys_distinct(all),
                self@ == old(self)@.union_prefer_right(
                    with_prefix(prefix@, as_text(entry_map(all.subrange(0, i as int)))),
                ),
            decreases other.table.entries().len() - i,
        {
            let key = join2(prefix, other.table.key_at(i).as_str());
            let value = other.table.value_at(i).clone();
            proof {
                let done = all.subrange(0, i as int);
                let entry = all[i as int];
                assert(all.subrange(0, i + 1) =~= done.push(entry));
                assert(keys_distinct(done)) by {
                    assert forall|a: int, b: int| 0 <= a < b < done.len() implies (
                    #[trigger] done[a]).0@ != (#[trigger] done[b]).0@ by {
                        assert(done[a] == all[a] && done[b] == all[b]);
                    }
                }
                assert(!has_key(done, entry.0@)) by {
                    assert forall|a: int| 0 <= a < done.len() implies (#[trigger] done[a]).0@
                        != entry.0@ by {
                        assert(done[a] == all[a]);
                    }
                }
                lemma_entry_map_push(done, entry);
                assert(as_text(entry_map(done).insert(entry.0@, entry.1)) =~= as_text(
                    entry_map(done),
                ).insert(entry.0@, entry.1@));
                lemma_with_prefix_insert(prefix@, as_text(entry_map(done)), entry.0@, entry.1@);
                assert(old(self)@.union_prefer_right(
                    with_prefix(prefix@, as_text(entry_map(done))).insert(
                        prefix@ + entry.0@,
                        entry.1@,
                    ),
                ) =~= old(self)@.union_prefer_right(
                    with_prefix(prefix@, as_text(entry_map(done))),
                ).insert(prefix@ + entry.0@, entry.1@));
            }
            self.insert(key, value);
            i += 1;
        }
        assert(all.subrange(0, i as int) =~= all);
    }

    /// A copy of the map with the same entries in the same order.
    pub fn duplicate(&self) -> (copy: TagMap)
        ensures
            copy@ == self@,
            copy.count() == self.count(),
    {
        self.table.distinct();
        let ghost all = self.table.entries();
        let mut copy = TagMap::new();
        let mut i: usize = 0;
        proof {
            assert(all.subrange(0, 0) =~= copy.table.entries());
        }
        while i < self.table.len()
            invariant
                i <= self.table.entries().len(),
                all == self.table.entries(),
                keys_distinct(all),
                copy.table.entries() == all.subrange(0, i as int),
            decreases self.table.entries().len() - i,
        {
            let key = self.table.key_at(i).clone();
            let value = self.table.value_at(i).clone();
            proof {
                let done = all.subrange(0, i as int);
                assert(!has_key(done, key@)) by {
                    assert forall|a: int| 0 <= a < done.len() implies (#[trigger] done[a]).0@
                        != key@ by {
                        assert(done[a] == all[a]);
                    }
                }
                assert(all.subrange(0, i + 1) =~= done.push((key, value)));
            }
            copy.table.insert(key, value);
            i += 1;
        }
        assert(all.subrange(0, i as int) =~= all);
        copy
    }
}

impl Clone for TagMap {
    fn clone(&self) -> (copy: TagMap)
        ensures
            copy@ == self@,
    {
        self.duplicate()
    }
}

} // verus!
