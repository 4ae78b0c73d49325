//! A small dictionary keyed by raw identities.
//!
//! Entries sit in a vector in the order in which their keys first came, and
//! a lookup walks that vector. No key ever sits in it twice, which is what
//! makes the vector a map.

use vstd::prelude::*;
use crate::ids::RawID;

verus! {

/// One key and what is filed under it.
struct Entry<V> {
    key: RawID,
    value: V,
}

/// Linear-search dictionary from raw identities to values of type `V`.
pub struct IdDict<V> {
    entries: Vec<Entry<V>>,
}

/// No key occurs at two places of `entries`.
spec fn keys_are_distinct<V>(entries: Seq<Entry<V>>) -> bool {
    forall|i: int, j: int|
        0 <= i < entries.len() && 0 <= j < entries.len() && i != j ==> entries[i].key
            != entries[j].key
}

/// Some entry of `entries` has the key `key`.
spec fn has_key<V>(entries: Seq<Entry<V>>, key: RawID) -> bool {
    exists|i: int| 0 <= i < entries.len() && entries[i].key == key
}

/// A place of `entries` at which `key` sits, if it sits anywhere.
spec fn place_of<V>(entries: Seq<Entry<V>>, key: RawID) -> int {
    choose|i: int| 0 <= i < entries.len() && entries[i].key == key
}

/// The map that `entries` stands for.
spec fn entries_as_map<V>(entries: Seq<Entry<V>>) -> Map<RawID, V> {
    Map::new(
        |key: RawID| has_key(entries, key),
        |key: RawID| entries[place_of(entries, key)].value,
    )
}

proof fn lemma_place_of_is_the_place<V>(entries: Seq<Entry<V>>, i: int)
    requires
        keys_are_distinct(entries),
        0 <= i < entries.len(),
    ensures
        has_key(entries, entries[i].key),
        place_of(entries, entries[i].key) == i,
{
}

proof fn lemma_absent_key<V>(entries: Seq<Entry<V>>, key: RawID)
    requires
        forall|i: int| 0 <= i < entries.len() ==> entries[i].key != key,
    ensures
        !has_key(entries, key),
{
}

proof fn lemma_push_is_insert<V>(entries: Seq<Entry<V>>, key: RawID, value: V)
    requires
        keys_are_distinct(entries),
        !has_key(entries, key),
    ensures
        keys_are_distinct(entries.push(Entry { key, value })),
        entries_as_map(entries.push(Entry { key, value })) == entries_as_map(entries).insert(
            key,
            value,
        ),
{
    let grown = entries.push(Entry { key, value });
    assert(keys_are_distinct(grown)) by {
        assert forall|i: int, j: int|
            0 <= i < grown.len() && 0 <= j < grown.len() && i != j implies grown[i].key
            != grown[j].key by {
            if i < entries.len() && j < entries.len() {
                assert(entries[i].key != entries[j].key);
            } else if i < entries.len() {
                assert(entries[i].key != key);
            } else {
                assert(entries[j].key != key);
            }
        }
    }
    assert forall|k: RawID| has_key(grown, k) <==> (k == key || has_key(entries, k)) by {
        if has_key(grown, k) {
            let i = place_of(grown, k);
            if i < entries.len() {
                assert(entries[i].key == k);
            }
        }
        if k == key {
            assert(grown[entries.len() as int].key == k);
        }
        if has_key(entries, k) {
            let i = place_of(entries, k);
            assert(grown[i].key == k);
        }
    }
    assert forall|k: RawID| has_key(grown, k) implies entries_as_map(grown)[k]
        == entries_as_map(entries).insert(key, value)[k] by {
        if k == key {
            lemma_place_of_is_the_place(grown, entries.len() as int);
        } else {
            let i = place_of(entries, k);
            lemma_place_of_is_the_place(entries, i);
            assert(grown[i].key == k);
            lemma_place_of_is_the_place(grown, i);
        }
    }
    assert(entries_as_map(grown) =~= entries_as_map(entries).insert(key, value));
}

proof fn lemma_update_is_insert<V>(entries: Seq<Entry<V>>, i: int, value: V)
    requires
        keys_are_distinct(entries),
        0 <= i < entries.len(),
    ensures
        keys_are_distinct(entries.update(i, Entry { key: entries[i].key, value })),
        entries_as_map(entries.update(i, Entry { key: entries[i].key, value }))
            == entries_as_map(entries).insert(entries[i].key, value),
{
    let key = entries[i].key;
    let changed = entries.update(i, Entry { key, value });
    assert(keys_are_distinct(changed)) by {
        assert forall|a: int, b: int|
            0 <= a < changed.len() && 0 <= b < changed.len() && a != b implies changed[a].key
            != changed[b].key by {
            assert(changed[a].key == entries[a].key);
            assert(changed[b].key == entries[b].key);
        }
    }
    assert forall|k: RawID| has_key(changed, k) <==> has_key(entries, k) by {
        if has_key(changed, k) {
            let a = place_of(changed, k);
            assert(entries[a].key == k);
        }
        if has_key(entries, k) {
            let a = place_of(entries, k);
            assert(changed[a].key == k);
        }
    }
    lemma_place_of_is_the_place(entries, i);
    assert forall|k: RawID| has_key(changed, k) implies entries_as_map(changed)[k]
        == entries_as_map(entries).insert(key, value)[k] by {
        let a = place_of(entries, k);
        lemma_place_of_is_the_place(entries, a);
        assert(changed[a].key == k);
        lemma_place_of_is_the_place(changed, a);
    }
    assert(entries_as_map(changed) =~= entries_as_map(entries).insert(key, value));
}

proof fn lemma_remove_is_remove<V>(entries: Seq<Entry<V>>, i: int)
    requires
        keys_are_distinct(entries),
        0 <= i < entries.len(),
    ensures
        keys_are_distinct(entries.remove(i)),
        entries_as_map(entries.remove(i)) == entries_as_map(entries).remove(entries[i].key),
{
    let key = entries[i].key;
    let rest = entries.remove(i);
    assert forall|a: int| 0 <= a < rest.len() implies rest[a] == entries[if a < i {
        a
    } else {
        a + 1
    }] by {}
    assert(keys_are_distinct(rest)) by {
        assert forall|a: int, b: int|
            0 <= a < rest.len() && 0 <= b < rest.len() && a != b implies rest[a].key
            != rest[b].key by {
            let a0 = if a < i {
                a
            } else {
                a + 1
            };
            let b0 = if b < i {
                b
            } else {
                b + 1
            };
            assert(rest[a] == entries[a0]);
            assert(rest[b] == entries[b0]);
            assert(entries[a0].key != entries[b0].key);
        }
    }
    assert forall|k: RawID| has_key(rest, k) <==> (k != key && has_key(entries, k)) by {
        if has_key(rest, k) {
            let a = place_of(rest, k);
            let a0 = if a < i {
                a
            } else {
                a + 1
            };
            assert(rest[a] == entries[a0]);
            assert(entries[a0].key == k);
            assert(entries[a0].key != entries[i].key);
        }
        if k != key && has_key(entries, k) {
            let a0 = place_of(entries, k);
            let a = if a0 < i {
                a0
            } else {
                a0 - 1
            };
            assert(rest[a] == entries[a0]);
            assert(rest[a].key == k);
        }
    }
    assert forall|k: RawID| has_key(rest, k) implies entries_as_map(rest)[k] == entries_as_map(
        entries,
    ).remove(key)[k] by {
        let a0 = place_of(entries, k);
        lemma_place_of_is_the_place(entries, a0);
        let a = if a0 < i {
            a0
        } else {
            a0 - 1
        };
        assert(rest[a] == entries[a0]);
        lemma_place_of_is_the_place(rest, a);
    }
    assert(entries_as_map(rest) =~= entries_as_map(entries).remove(key));
}

impl<V> View for IdDict<V> {
    type V = Map<RawID, V>;

    closed spec fn view(&self) -> Map<RawID, V> {
        entries_as_map(self.entries@)
    }
}

impl<V> IdDict<V> {
    #[verifier::type_invariant]
    spec fn keys_occur_once(self) -> bool {
        keys_are_distinct(self.entries@)
    }

    /// A dictionary without entries.
    pub fn new() -> (dict: Self)
        ensures
            dict@ == Map::<RawID, V>::empty(),
    {
        let dict = IdDict { entries: Vec::new() };
        proof {
            assert(dict@ =~= Map::<RawID, V>::empty());
        }
        dict
    }

    /// The place of `query` among the entries, if it has one.
    fn find(&self, query: RawID) -> (place: Option<usize>)
        ensures
            match place {
                Some(i) => i < self.entries@.len() && self.entries@[i as int].key == query,
                None => !has_key(self.entries@, query),
            },
    {
        let mut i: usize = 0;
        while i < self.entries.len()
            invariant
                i <= self.entries@.len(),
                forall|j: int| 0 <= j < i ==> self.entries@[j].key != query,
            decreases self.entries@.len() - i,
        {
            if self.entries[i].key == query {
                return Some(i);
            }
            i += 1;
        }
        proof {
            lemma_absent_key(self.entries@, query);
        }
        None
    }

    /// Whether something is filed under `query`.
    pub fn contains_key(&self, query: RawID) -> (found: bool)
        ensures
            found == self@.contains_key(query),
    {
        self.find(query).is_some()
    }

    /// What is filed under `query`, if anything is.
    pub fn get(&self, query: RawID) -> (found: Option<&V>)
        ensures
            match found {
                Some(value) => self@.contains_key(query) && *value == self@[query],
                None => !self@.contains_key(query),
            },
    {
        proof {
            use_type_invariant(&*self);
        }
        match self.find(query) {
            Some(i) => {
                proof {
                    lemma_place_of_is_the_place(self.entries@, i as int);
                }
                Some(&self.entries[i].value)
            },
            None => None,
        }
    }

    /// Files `value` under `query` and hands back what was filed there
    /// before, if anything was.
    pub fn insert(&mut self, query: RawID, value: V) -> (previous: Option<V>)
        ensures
            final(self)@ == old(self)@.insert(query, value),
            match previous {
                Some(before) => old(self)@.contains_key(query) && before == old(self)@[query],
                None => !old(self)@.contains_key(query),
            },
    {
        proof {
            use_type_invariant(&*self);
        }
        let place = self.find(query);
        let mut entries: Vec<Entry<V>> = Vec::new();
        std::mem::swap(&mut entries, &mut self.entries);
        let previous = match place {
            Some(i) => {
                proof {
                    lemma_place_of_is_the_place(entries@, i as int);
                    lemma_update_is_insert(entries@, i as int, value);
                }
                entries.push(Entry { key: query, value });
                let before = entries.swap_remove(i);
                assert(entries@ =~= old(self).entries@.update(
                    i as int,
                    Entry { key: query, value },
                ));
                Some(before.value)
            },
            None => {
                proof {
                    lemma_push_is_insert(entries@, query, value);
                }
                entries.push(Entry { key: query, value });
                None
            },
        };
        self.entries = entries;
        previous
    }

    /// Takes away what is filed under `query` and hands it back; does
    /// nothing where nothing is filed there.
    pub fn remove(&mut self, query: RawID) -> (removed: Option<V>)
        ensures
            final(self)@ == old(self)@.remove(query),
            match removed {
                Some(before) => old(self)@.contains_key(query) && before == old(self)@[query],
                None => !old(self)@.contains_key(query),
            },
    {
        proof {
            use_type_invariant(&*self);
        }
        match self.find(query) {
            Some(i) => {
                let mut entries: Vec<Entry<V>> = Vec::new();
                std::mem::swap(&mut entries, &mut self.entries);
                proof {
                    lemma_place_of_is_the_place(entries@, i as int);
                    lemma_remove_is_remove(entries@, i as int);
                }
                let before = entries.remove(i);
                self.entries = entries;
                Some(before.value)
            },
            None => {
                proof {
                    assert(self@ =~= old(self)@.remove(query));
                }
                None
            },
        }
    }

    /// How many keys have something filed under them.
    pub fn len(&self) -> (count: usize)
        ensures
            self@.dom().finite(),
            count == self@.len(),
    {
        proof {
            use_type_invariant(&*self);
            lemma_len_is_entry_count(self.entries@);
        }
        self.entries.len()
    }
}

proof fn lemma_len_is_entry_count<V>(entries: Seq<Entry<V>>)
    requires
        keys_are_distinct(entries),
    ensures
        entries_as_map(entries).dom().finite(),
        entries_as_map(entries).len() == entries.len(),
    decreases entries.len(),
{
    if entries.len() == 0 {
        assert(entries_as_map(entries).dom() =~= Set::<RawID>::empty());
    } else {
        let last = (entries.len() - 1) as int;
        let shorter = entries.remove(last);
        lemma_remove_is_remove(entries, last);
        lemma_len_is_entry_count(shorter);
        lemma_place_of_is_the_place(entries, last);
        assert(entries_as_map(entries).contains_key(entries[last].key));
        assert(entries_as_map(entries).dom() =~= entries_as_map(shorter).dom().insert(
            entries[last].key,
        ));
    }
}

} // verus!
