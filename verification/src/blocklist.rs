//! The blocklist store: a table of bounded size from addresses to markers.

use std::collections::HashMap;
use vstd::prelude::*;

verus! {

broadcast use vstd::std_specs::hash::group_hash_axioms;

/// Why the store turned a request down.
#[derive(Clone, Copy, Debug, PartialEq, Eq)]
pub enum StoreError {
    /// The key is new and the store already holds as many entries as it may.
    CapacityExceeded,
    /// The key to remove is not in the store.
    NotFound,
}

/// What the store keeps with an address. Only the presence of an entry
/// matters to the filter; the marker itself is carried and handed back, never
/// interpreted.
pub type Marker = u32;

/// Number of entries the filter's blocklist is created with.
pub const BLOCKLIST_MAX_ENTRIES: u32 = 1024;

/// Whether a store that holds `entries` and may hold `max_entries` takes an
/// insert of `key`: the key is already there, or there is room for one more.
pub open spec fn admits(entries: Map<u32, u32>, max_entries: nat, key: u32) -> bool {
    entries.contains_key(key) || entries.len() < max_entries
}

/// The entries of the store after an insert of `key` with `value` was asked
/// for: the pair is there if the insert was admitted, nothing changed if not.
pub open spec fn after_insert(
    entries: Map<u32, u32>,
    max_entries: nat,
    key: u32,
    value: u32,
) -> Map<u32, u32> {
    if admits(entries, max_entries, key) {
        entries.insert(key, value)
    } else {
        entries
    }
}

/// The entries of the store after a removal of `key` was asked for.
pub open spec fn after_remove(entries: Map<u32, u32>, key: u32) -> Map<u32, u32> {
    entries.remove(key)
}

/// A table from 32-bit addresses (host byte order) to opaque markers that
/// never holds more than `max_entries` entries.
pub struct Blocklist {
    entries: HashMap<u32, Marker>,
    max_entries: u32,
}

impl View for Blocklist {
    type V = Map<u32, u32>;

    closed spec fn view(&self) -> Map<u32, u32> {
        self.entries@
    }
}

impl Blocklist {
    #[verifier::type_invariant]
    closed spec fn within_capacity(self) -> bool {
        self.entries@.dom().finite() && self.entries@.len() <= self.max_entries
    }

    /// The number of entries the store may hold.
    pub closed spec fn spec_max_entries(self) -> nat {
        self.max_entries as nat
    }

    /// An empty store that may hold up to `max_entries` entries.
    pub fn with_max_entries(max_entries: u32) -> (store: Self)
        ensures
            store@ == Map::<u32, u32>::empty(),
            store.spec_max_entries() == max_entries,
    {
        Blocklist { entries: HashMap::new(), max_entries }
    }

    /// Moves the table out for an update and leaves an empty one behind, so
    /// that the bound on the size holds at every moment in between.
    fn take_entries(&mut self) -> (entries: HashMap<u32, Marker>)
        ensures
            entries@ == old(self).entries@,
            final(self).entries@ == Map::<u32, u32>::empty(),
            final(self).max_entries == old(self).max_entries,
    {
        let mut entries = HashMap::new();
        core::mem::swap(&mut self.entries, &mut entries);
        entries
    }

    /// The number of entries the store may hold.
    pub fn max_entries(&self) -> (n: u32)
        ensures
            n == self.spec_max_entries(),
    {
        self.max_entries
    }

    /// The number of entries in the store.
    pub fn len(&self) -> (n: usize)
        ensures
            n == self@.len(),
            n <= self.spec_max_entries(),
            self@.dom().finite(),
    {
        proof {
            use_type_invariant(self);
        }
        self.entries.len()
    }

    /// Whether the store holds an entry for `key`.
    pub fn contains(&self, key: u32) -> (found: bool)
        ensures
            found == self@.contains_key(key),
    {
        self.entries.contains_key(&key)
    }

    /// The marker stored for `key`, if the store holds an entry for it.
    pub fn get(&self, key: u32) -> (marker: Option<Marker>)
        ensures
            marker is Some <==> self@.contains_key(key),
            marker matches Some(value) ==> value == self@[key],
    {
        match self.entries.get(&key) {
            Some(value) => Some(*value),
            None => None,
        }
    }

    /// Puts `key` with `value` into the store, replacing the value of a key
    /// that is already there.
    ///
    /// Fails with `CapacityExceeded`, and changes nothing, exactly when the
    /// key is new and the store is full.
    pub fn insert(&mut self, key: u32, value: Marker) -> (done: Result<(), StoreError>)
        ensures
            done is Ok <==> admits(old(self)@, old(self).spec_max_entries(), key),
            done matches Err(e) ==> e == StoreError::CapacityExceeded,
            final(self)@ == after_insert(old(self)@, old(self).spec_max_entries(), key, value),
            final(self).spec_max_entries() == old(self).spec_max_entries(),
    {
        proof {
            use_type_invariant(&*self);
        }
        if !self.entries.contains_key(&key) && self.entries.len() >= self.max_entries as usize {
            return Err(StoreError::CapacityExceeded);
        }
        let mut entries = self.take_entries();
        entries.insert(key, value);
        self.entries = entries;
        Ok(())
    }

    /// Takes `key` out of the store.
    ///
    /// Fails with `NotFound`, and changes nothing, exactly when the store
    /// holds no entry for the key.
    pub fn remove(&mut self, key: u32) -> (done: Result<(), StoreError>)
        ensures
            done is Ok <==> old(self)@.contains_key(key),
            done matches Err(e) ==> e == StoreError::NotFound,
            final(self)@ == after_remove(old(self)@, key),
            final(self).spec_max_entries() == old(self).spec_max_entries(),
    {
        proof {
            use_type_invariant(&*self);
        }
        let mut entries = self.take_entries();
        let removed = entries.remove(&key);
        self.entries = entries;
        match removed {
            Some(_) => Ok(()),
            None => {
                assert(self@ =~= after_remove(old(self)@, key));
                Err(StoreError::NotFound)
            },
        }
    }
}

/// Inserting the same pair twice is the same as inserting it once: the second
/// insert is admitted whenever the first was, and it leaves the entries, and
/// with them the number of entries, as the first left them.
pub proof fn lemma_insert_twice(entries: Map<u32, u32>, max_entries: nat, key: u32, value: u32)
    requires
        entries.dom().finite(),
    ensures
        ({
            let once = after_insert(entries, max_entries, key, value);
            let twice = after_insert(once, max_entries, key, value);
            &&& twice == once
            &&& twice.len() == once.len()
            &&& admits(entries, max_entries, key) ==> admits(once, max_entries, key)
            &&& admits(entries, max_entries, key) ==> twice.contains_key(key)
        }),
{
    let once = after_insert(entries, max_entries, key, value);
    let twice = after_insert(once, max_entries, key, value);
    assert(twice =~= once);
}

/// An insert that was admitted is seen by the next lookup, with the value
/// that was given.
pub proof fn lemma_insert_then_contains(
    entries: Map<u32, u32>,
    max_entries: nat,
    key: u32,
    value: u32,
)
    requires
        admits(entries, max_entries, key),
    ensures
        after_insert(entries, max_entries, key, value).contains_key(key),
        after_insert(entries, max_entries, key, value)[key] == value,
{
}

/// After a removal the next lookup of the key finds nothing, whether or not
/// the key was there before.
pub proof fn lemma_remove_then_absent(entries: Map<u32, u32>, key: u32)
    ensures
        !after_remove(entries, key).contains_key(key),
{
}

/// An insert and a removal leave every other key as it was.
pub proof fn lemma_other_keys_untouched(
    entries: Map<u32, u32>,
    max_entries: nat,
    key: u32,
    value: u32,
    other: u32,
)
    requires
        other != key,
    ensures
        after_insert(entries, max_entries, key, value).contains_key(other) == entries.contains_key(
            other,
        ),
        entries.contains_key(other) ==> after_insert(entries, max_entries, key, value)[other]
            == entries[other],
        after_remove(entries, key).contains_key(other) == entries.contains_key(other),
        entries.contains_key(other) ==> after_remove(entries, key)[other] == entries[other],
{
}

/// A store that holds as many entries as it may turns a new key down and
/// keeps every entry it has.
pub proof fn lemma_full_store_rejects(
    entries: Map<u32, u32>,
    max_entries: nat,
    key: u32,
    value: u32,
)
    requires
        entries.dom().finite(),
        entries.len() >= max_entries,
        !entries.contains_key(key),
    ensures
        !admits(entries, max_entries, key),
        after_insert(entries, max_entries, key, value) == entries,
{
}

/// The entries of the store after inserts of `pairs` were asked for one after
/// the other, first pair first, each admitted or turned down on its own.
pub open spec fn after_inserts(
    entries: Map<u32, u32>,
    max_entries: nat,
    pairs: Seq<(u32, u32)>,
) -> Map<u32, u32>
    decreases pairs.len(),
{
    if pairs.len() == 0 {
        entries
    } else {
        after_insert(
            after_inserts(entries, max_entries, pairs.drop_last()),
            max_entries,
            pairs.last().0,
            pairs.last().1,
        )
    }
}

/// No two of `pairs` have the same key.
pub open spec fn distinct_keys(pairs: Seq<(u32, u32)>) -> bool {
    forall|i: int, j: int| 0 <= i < j < pairs.len() ==> pairs[i].0 != pairs[j].0
}

/// An empty store takes pairs with distinct keys as long as there are no more
/// of them than it may hold: afterwards it holds each of them, and nothing
/// else.
pub proof fn lemma_fill(max_entries: nat, pairs: Seq<(u32, u32)>)
    requires
        distinct_keys(pairs),
        pairs.len() <= max_entries,
    ensures
        ({
            let filled = after_inserts(Map::empty(), max_entries, pairs);
            &&& filled.dom().finite()
            &&& filled.len() == pairs.len()
            &&& forall|i: int|
                0 <= i < pairs.len() ==> filled.contains_key(#[trigger] pairs[i].0) && filled[pairs[i].0]
                    == pairs[i].1
            &&& forall|key: u32|
                filled.contains_key(key) ==> exists|i: int|
                    0 <= i < pairs.len() && #[trigger] pairs[i].0 == key
        }),
    decreases pairs.len(),
{
    if pairs.len() > 0 {
        let front = pairs.drop_last();
        let before = after_inserts(Map::empty(), max_entries, front);
        lemma_fill(max_entries, front);
        let key = pairs.last().0;
        assert(!before.contains_key(key)) by {
            if before.contains_key(key) {
                let i = choose|i: int| 0 <= i < front.len() && #[trigger] front[i].0 == key;
                assert(pairs[i].0 == pairs[pairs.len() - 1].0);
            }
        }
        let filled = after_inserts(Map::empty(), max_entries, pairs);
        assert(filled == before.insert(key, pairs.last().1));
        assert forall|i: int| 0 <= i < pairs.len() implies filled.contains_key(
            #[trigger] pairs[i].0,
        ) && filled[pairs[i].0] == pairs[i].1 by {
            if i < front.len() {
                assert(front[i] == pairs[i]);
            }
        }
        assert forall|k: u32| filled.contains_key(k) implies exists|i: int|
            0 <= i < pairs.len() && #[trigger] pairs[i].0 == k by {
            if k == key {
                assert(pairs[pairs.len() - 1].0 == k);
            } else {
                let i = choose|i: int| 0 <= i < front.len() && #[trigger] front[i].0 == k;
                assert(pairs[i].0 == k);
            }
        }
    }
}

/// One insert more than an empty store may hold: the pairs before the last
/// fill the store, the last is turned down, and the store still holds each of
/// the others with its value.
pub proof fn lemma_one_more_than_capacity(max_entries: nat, pairs: Seq<(u32, u32)>)
    requires
        distinct_keys(pairs),
        pairs.len() == max_entries + 1,
    ensures
        ({
            let full = after_inserts(Map::empty(), max_entries, pairs.drop_last());
            let after = after_inserts(Map::empty(), max_entries, pairs);
            &&& full.len() == max_entries
            &&& !admits(full, max_entries, pairs.last().0)
            &&& after == full
            &&& !after.contains_key(pairs.last().0)
            &&& forall|i: int|
                0 <= i < max_entries ==> after.contains_key(#[trigger] pairs[i].0) && after[pairs[i].0]
                    == pairs[i].1
        }),
{
    let front = pairs.drop_last();
    let full = after_inserts(Map::empty(), max_entries, front);
    lemma_fill(max_entries, front);
    let key = pairs.last().0;
    assert(!full.contains_key(key)) by {
        if full.contains_key(key) {
            let i = choose|i: int| 0 <= i < front.len() && #[trigger] front[i].0 == key;
            assert(pairs[i].0 == pairs[pairs.len() - 1].0);
        }
    }
    assert forall|i: int| 0 <= i < max_entries implies full.contains_key(#[trigger] pairs[i].0)
        && full[pairs[i].0] == pairs[i].1 by {
        assert(front[i] == pairs[i]);
    }
}

/// An admitted insert never takes the store past its bound, and adds one
/// entry exactly when the key is new.
pub proof fn lemma_insert_len(entries: Map<u32, u32>, max_entries: nat, key: u32, value: u32)
    requires
        entries.dom().finite(),
        entries.len() <= max_entries,
    ensures
        ({
            let after = after_insert(entries, max_entries, key, value);
            &&& after.dom().finite()
            &&& after.len() <= max_entries
            &&& after.len() == if admits(entries, max_entries, key) && !entries.contains_key(key) {
                entries.len() + 1
            } else {
                entries.len()
            }
        }),
{
}

} // verus!
