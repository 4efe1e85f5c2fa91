//! A set of ledger entries.

use crate::key::DataKey;
use crate::value::{Value, ValueView};
use vstd::prelude::*;

verus! {

/// Ledger entries, at most one under each key.
#[derive(Debug)]
pub struct Store {
    entries: Vec<(DataKey, Value)>,
}

/// Whether an entry of the list stands under the key.
spec fn listed(entries: Seq<(DataKey, Value)>, key: DataKey) -> bool {
    exists|i: int| 0 <= i < entries.len() && (#[trigger] entries[i]).0 == key
}

/// The place in the list of the entry under the key.
spec fn place(entries: Seq<(DataKey, Value)>, key: DataKey) -> int {
    choose|i: int| 0 <= i < entries.len() && (#[trigger] entries[i]).0 == key
}

/// Whether no two entries of the list stand under the same key.
spec fn distinct(entries: Seq<(DataKey, Value)>) -> bool {
    forall|i: int, j: int|
        0 <= i < entries.len() && 0 <= j < entries.len() && (#[trigger] entries[i]).0 == (
        #[trigger] entries[j]).0 ==> i == j
}

/// The list as a map.
spec fn mapping(entries: Seq<(DataKey, Value)>) -> Map<DataKey, ValueView> {
    Map::new(|key: DataKey| listed(entries, key), |key: DataKey| entries[place(entries, key)].1@)
}

/// Whether every value is of the type that its key asks for.
pub open spec fn well_typed(entries: Map<DataKey, ValueView>) -> bool {
    forall|key: DataKey| #[trigger]
        entries.contains_key(key) ==> key.admits(entries[key])
}

/// An entry of the list is found in the map.
proof fn lemma_mapping_at(entries: Seq<(DataKey, Value)>, i: int)
    requires
        distinct(entries),
        0 <= i < entries.len(),
    ensures
        mapping(entries).contains_key(entries[i].0),
        mapping(entries)[entries[i].0] == entries[i].1@,
{
    let key = entries[i].0;
    assert(listed(entries, key));
    assert(entries[place(entries, key)].0 == key);
}

impl View for Store {
    type V = Map<DataKey, ValueView>;

    closed spec fn view(&self) -> Map<DataKey, ValueView> {
        mapping(self.entries@)
    }
}

impl Store {
    /// No two entries share a key, and every value is of its key's type.
    pub closed spec fn wf(&self) -> bool {
        &&& distinct(self.entries@)
        &&& well_typed(mapping(self.entries@))
    }

    /// The values of a well-formed store are of their keys' types.
    pub proof fn lemma_well_typed(&self)
        requires
            self.wf(),
        ensures
            well_typed(self@),
    {
    }

    /// Creates a store without entries.
    pub fn new() -> (store: Store)
        ensures
            store.wf(),
            store@ == Map::<DataKey, ValueView>::empty(),
    {
        let store = Store { entries: Vec::new() };
        assert(store@ =~= Map::<DataKey, ValueView>::empty());
        store
    }

    /// Finds the place of the entry under the key.
    fn find(&self, key: &DataKey) -> (found: Option<usize>)
        ensures
            match found {
                Some(i) => i < self.entries@.len() && self.entries@[i as int].0 == *key,
                None => !listed(self.entries@, *key),
            },
    {
        let mut i: usize = 0;
        while i < self.entries.len()
            invariant
                i <= self.entries@.len(),
                forall|j: int| 0 <= j < i ==> (#[trigger] self.entries@[j]).0 != *key,
            decreases self.entries@.len() - i,
        {
            if self.entries[i].0 == *key {
                return Some(i);
            }
            i += 1;
        }
        None
    }

    /// Returns the value under the key.
    pub fn get(&self, key: &DataKey) -> (value: Option<&Value>)
        requires
            self.wf(),
        ensures
            match value {
                Some(v) => self@.contains_key(*key) && v@ == self@[*key],
                None => !self@.contains_key(*key),
            },
    {
        match self.find(key) {
            Some(i) => {
                proof {
                    lemma_mapping_at(self.entries@, i as int);
                }
                Some(&self.entries[i].1)
            },
            None => None,
        }
    }

    /// Puts a value under the key, in place of the one that stands there.
    pub fn set(&mut self, key: DataKey, value: Value)
        requires
            old(self).wf(),
            key.admits(value@),
        ensures
            final(self).wf(),
            final(self)@ == old(self)@.insert(key, value@),
    {
        let ghost before = self.entries@;
        let ghost view = value@;
        match self.find(&key) {
            Some(i) => {
                self.entries.set(i, (key, value));
                proof {
                    let after = self.entries@;
                    assert(distinct(after)) by {
                        assert forall|a: int, b: int|
                            0 <= a < after.len() && 0 <= b < after.len() && (#[trigger] after[a]).0
                                == (#[trigger] after[b]).0 implies a == b by {
                            assert(before[a].0 == before[b].0);
                        }
                    }
                    lemma_mapping_updated(before, after, i as int, key, view);
                }
            },
            None => {
                self.entries.push((key, value));
                proof {
                    lemma_mapping_updated(before, self.entries@, before.len() as int, key, view);
                }
            },
        }
        assert(well_typed(mapping(self.entries@)));
    }

    /// Removes the entry under the key, if there is one.
    pub fn remove(&mut self, key: &DataKey)
        requires
            old(self).wf(),
        ensures
            final(self).wf(),
            final(self)@ == old(self)@.remove(*key),
    {
        let ghost before = self.entries@;
        match self.find(key) {
            Some(i) => {
                let _ = self.entries.remove(i);
                proof {
                    lemma_mapping_removed(before, self.entries@, i as int);
                }
            },
            None => {
                assert(mapping(before).remove(*key) =~= mapping(before));
            },
        }
        assert(well_typed(mapping(self.entries@)));
    }
}

/// A list that differs at one place, or is longer by one, maps the same but for that key.
proof fn lemma_mapping_updated(
    before: Seq<(DataKey, Value)>,
    after: Seq<(DataKey, Value)>,
    place: int,
    key: DataKey,
    value: ValueView,
)
    requires
        distinct(before),
        distinct(after),
        0 <= place < after.len(),
        after[place].0 == key,
        after[place].1@ == value,
        after.len() == before.len() || (place == before.len() && after.len() == before.len() + 1),
        place < before.len() ==> before[place].0 == key,
        forall|i: int| 0 <= i < before.len() && i != place ==> #[trigger] after[i] == before[i],
    ensures
        mapping(after) == mapping(before).insert(key, value),
{
    let expected = mapping(before).insert(key, value);
    assert forall|k: DataKey|
        #![trigger mapping(after).dom().contains(k)]
        #![trigger expected.dom().contains(k)]
        mapping(after).dom().contains(k) == expected.dom().contains(k) && (mapping(
            after,
        ).dom().contains(k) ==> mapping(after)[k] == expected[k]) by {
        if k == key {
            lemma_mapping_at(after, place);
        } else if listed(after, k) {
            let i = self::place(after, k);
            lemma_mapping_at(after, i);
            assert(before[i] == after[i]);
            lemma_mapping_at(before, i);
        } else if listed(before, k) {
            let i = self::place(before, k);
            assert(after[i] == before[i]);
        }
    }
    assert(mapping(after) =~= expected);
}

/// A list without the entry at one place maps the same but for that entry's key.
proof fn lemma_mapping_removed(
    before: Seq<(DataKey, Value)>,
    after: Seq<(DataKey, Value)>,
    gone: int,
)
    requires
        distinct(before),
        0 <= gone < before.len(),
        after == before.remove(gone),
    ensures
        distinct(after),
        mapping(after) == mapping(before).remove(before[gone].0),
{
    let key = before[gone].0;
    let expected = mapping(before).remove(key);
    assert(distinct(after)) by {
        assert forall|a: int, b: int|
            0 <= a < after.len() && 0 <= b < after.len() && (#[trigger] after[a]).0 == (
            #[trigger] after[b]).0 implies a == b by {
            let a0 = if a < gone { a } else { a + 1 };
            let b0 = if b < gone { b } else { b + 1 };
            assert(before[a0].0 == before[b0].0);
        }
    }
    assert forall|k: DataKey|
        #![trigger mapping(after).dom().contains(k)]
        #![trigger expected.dom().contains(k)]
        mapping(after).dom().contains(k) == expected.dom().contains(k) && (mapping(
            after,
        ).dom().contains(k) ==> mapping(after)[k] == expected[k]) by {
        if listed(after, k) {
            let i = place(after, k);
            let i0 = if i < gone { i } else { i + 1 };
            lemma_mapping_at(after, i);
            assert(before[i0] == after[i]);
            lemma_mapping_at(before, i0);
        } else if listed(before, k) && k != key {
            let i = place(before, k);
            let i1 = if i < gone { i } else { i - 1 };
            assert(after[i1] == before[i]);
        }
    }
    assert(mapping(after) =~= expected);
}

} // verus!
