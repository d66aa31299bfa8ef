//! The shared store of engine resources.
//!
//! A resource is identified by an integer key and carries an integer payload;
//! richer payloads (window handles, device objects) are owned by the embedding
//! shell, which maps them to keys of its choosing. Scenes and systems receive
//! the store during their callbacks and mutate it through the operations here.

use vstd::prelude::*;

verus! {

/// A mutable container of resources, viewed as a `Map<u64, u64>`.
///
/// Internally an association list whose keys stay distinct, so an insert
/// either updates the entry that holds the key or appends a fresh entry.
pub struct Store {
    entries: Vec<(u64, u64)>,
}

/// The map an association list holds; a later entry would win, though a
/// store keeps its keys distinct.
pub open spec fn map_of(entries: Seq<(u64, u64)>) -> Map<u64, u64>
    decreases entries.len(),
{
    if entries.len() == 0 {
        Map::empty()
    } else {
        map_of(entries.drop_last()).insert(entries.last().0, entries.last().1)
    }
}

spec fn keys_distinct(entries: Seq<(u64, u64)>) -> bool {
    forall|i: int, j: int| 0 <= i < j < entries.len() ==> entries[i].0 != entries[j].0
}

proof fn lemma_keys_distinct_drop_last(entries: Seq<(u64, u64)>)
    requires
        keys_distinct(entries),
        entries.len() > 0,
    ensures
        keys_distinct(entries.drop_last()),
{
    assert forall|i: int, j: int|
        0 <= i < j < entries.drop_last().len() implies entries.drop_last()[i].0
        != entries.drop_last()[j].0 by {
        assert(entries.drop_last()[i] == entries[i]);
        assert(entries.drop_last()[j] == entries[j]);
    }
}

proof fn lemma_map_of_found(entries: Seq<(u64, u64)>, i: int)
    requires
        keys_distinct(entries),
        0 <= i < entries.len(),
    ensures
        map_of(entries).dom().contains(entries[i].0),
        map_of(entries)[entries[i].0] == entries[i].1,
    decreases entries.len(),
{
    if i < entries.len() - 1 {
        lemma_keys_distinct_drop_last(entries);
        assert(entries.drop_last()[i] == entries[i]);
        lemma_map_of_found(entries.drop_last(), i);
        assert(entries.last().0 != entries[i].0);
    }
}

proof fn lemma_map_of_absent(entries: Seq<(u64, u64)>, key: u64)
    requires
        forall|t: int| 0 <= t < entries.len() ==> entries[t].0 != key,
    ensures
        !map_of(entries).dom().contains(key),
    decreases entries.len(),
{
    if entries.len() > 0 {
        assert forall|t: int|
            0 <= t < entries.drop_last().len() implies entries.drop_last()[t].0 != key by {
            assert(entries.drop_last()[t] == entries[t]);
        }
        lemma_map_of_absent(entries.drop_last(), key);
    }
}

proof fn lemma_map_of_update(entries: Seq<(u64, u64)>, i: int, value: u64)
    requires
        keys_distinct(entries),
        0 <= i < entries.len(),
    ensures
        map_of(entries.update(i, (entries[i].0, value))) == map_of(entries).insert(
            entries[i].0,
            value,
        ),
    decreases entries.len(),
{
    let key = entries[i].0;
    let updated = entries.update(i, (key, value));
    if i == entries.len() - 1 {
        assert(updated.drop_last() =~= entries.drop_last());
        assert(map_of(updated) == map_of(entries.drop_last()).insert(key, value));
        assert(map_of(entries.drop_last()).insert(key, entries[i].1).insert(key, value)
            =~= map_of(entries.drop_last()).insert(key, value));
    } else {
        lemma_keys_distinct_drop_last(entries);
        assert(entries.drop_last()[i] == entries[i]);
        lemma_map_of_update(entries.drop_last(), i, value);
        assert(updated.drop_last() =~= entries.drop_last().update(i, (key, value)));
        assert(updated.last() == entries.last());
        assert(entries.last().0 != key);
        assert(map_of(entries.drop_last()).insert(key, value).insert(
            entries.last().0,
            entries.last().1,
        ) =~= map_of(entries.drop_last()).insert(entries.last().0, entries.last().1).insert(
            key,
            value,
        ));
    }
}

fn find_key(entries: &Vec<(u64, u64)>, key: u64) -> (r: Option<usize>)
    ensures
        match r {
            Some(i) => i < entries@.len() && entries@[i as int].0 == key,
            None => forall|t: int| 0 <= t < entries@.len() ==> entries@[t].0 != key,
        },
{
    let mut i: usize = 0;
    while i < entries.len()
        invariant
            i <= entries@.len(),
            forall|t: int| 0 <= t < i ==> entries@[t].0 != key,
        decreases entries@.len() - i,
    {
        if entries[i].0 == key {
            return Some(i);
        }
        i = i + 1;
    }
    None
}

impl View for Store {
    type V = Map<u64, u64>;

    closed spec fn view(&self) -> Map<u64, u64> {
        map_of(self.entries@)
    }
}

impl Store {
    #[verifier::type_invariant]
    spec fn wf(self) -> bool {
        keys_distinct(self.entries@)
    }

    /// An empty store.
    pub fn new() -> (s: Store)
        ensures
            s@ == Map::<u64, u64>::empty(),
    {
        Store { entries: Vec::new() }
    }

    /// Inserts the resource under `key`, replacing what the key held before.
    pub fn insert_resource(&mut self, key: u64, value: u64)
        ensures
            final(self)@ == old(self)@.insert(key, value),
    {
        proof {
            use_type_invariant(&*self);
        }
        let ghost orig = self.entries@;
        let mut entries: Vec<(u64, u64)> = Vec::new();
        std::mem::swap(&mut entries, &mut self.entries);
        match find_key(&entries, key) {
            Option::Some(i) => {
                entries[i] = (key, value);
                proof {
                    assert(entries@ == orig.update(i as int, (key, value)));
                    lemma_map_of_update(orig, i as int, value);
                    assert forall|a: int, b: int|
                        0 <= a < b < entries@.len() implies entries@[a].0 != entries@[b].0 by {
                        assert(entries@[a].0 == orig[a].0);
                        assert(entries@[b].0 == orig[b].0);
                    }
                }
            },
            Option::None => {
                entries.push((key, value));
                proof {
                    assert(entries@.drop_last() =~= orig);
                    assert(map_of(entries@) == map_of(orig).insert(key, value));
                    assert forall|a: int, b: int|
                        0 <= a < b < entries@.len() implies entries@[a].0 != entries@[b].0 by {
                        if b < entries@.len() - 1 {
                            assert(entries@[a].0 == orig[a].0);
                            assert(entries@[b].0 == orig[b].0);
                        } else {
                            assert(entries@[a].0 == orig[a].0);
                        }
                    }
                }
            },
        }
        self.entries = entries;
    }

    /// Reads the resource under `key`, if the store holds one.
    pub fn get_resource(&self, key: u64) -> (r: Option<u64>)
        ensures
            match r {
                Some(v) => self@.dom().contains(key) && v == self@[key],
                None => !self@.dom().contains(key),
            },
    {
        proof {
            use_type_invariant(&*self);
        }
        let mut i: usize = 0;
        while i < self.entries.len()
            invariant
                i <= self.entries@.len(),
                forall|t: int| 0 <= t < i ==> self.entries@[t].0 != key,
                keys_distinct(self.entries@),
                self@ == map_of(self.entries@),
            decreases self.entries@.len() - i,
        {
            if self.entries[i].0 == key {
                proof {
                    lemma_map_of_found(self.entries@, i as int);
                }
                return Some(self.entries[i].1);
            }
            i = i + 1;
        }
        proof {
            lemma_map_of_absent(self.entries@, key);
        }
        None
    }

    /// Whether the store holds a resource under `key`.
    pub fn contains_resource(&self, key: u64) -> (r: bool)
        ensures
            r == self@.dom().contains(key),
    {
        match self.get_resource(key) {
            Option::Some(_) => true,
            Option::None => false,
        }
    }
}

} // verus!
