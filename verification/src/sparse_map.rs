//! A sparse-set component store: values are packed in a dense array of
//! `(key, value)` records, and a key-to-index map gives O(1) membership,
//! lookup and removal. Removal swaps the target record with the dense-last
//! record, so the dense order is arbitrary after any removal; keys stay
//! valid, dense positions do not.

use std::collections::HashMap;
use vstd::prelude::*;

verus! {

broadcast use vstd::std_specs::hash::group_hash_axioms;

/// One dense record: the key it was inserted under, and the stored value.
/// The store never hands out a mutable record, so the key of a stored
/// record is read-only; the value may be overwritten in place.
pub struct SparseMapItem<T> {
    pub key: u32,
    pub value: T,
}

impl<T> SparseMapItem<T> {
    /// The key this record was inserted under.
    pub open spec fn spec_key(&self) -> u32 {
        self.key
    }

    #[verifier::when_used_as_spec(spec_key)]
    pub fn get_key(&self) -> (k: u32)
        ensures
            k == self.spec_key(),
    {
        self.key
    }
}

/// The effect of a swap-removal at position `i` on a dense sequence: the
/// last element moves into slot `i`, then the last slot is dropped.
pub open spec fn swap_remove_seq<A>(s: Seq<A>, i: int) -> Seq<A> {
    s.update(i, s.last()).drop_last()
}

/// The store's round trip, over the map view that `insert`, `get` and
/// `remove` are specified against: after `insert(k, v)`, `get(k)` answers
/// `v`; after `remove(k)` the key is gone; and under both operations every
/// other present key keeps its value.
pub proof fn lemma_store_round_trip<T>(m: Map<u32, T>, k: u32, v: T)
    ensures
        m.insert(k, v).contains_key(k),
        m.insert(k, v)[k] == v,
        !m.remove(k).contains_key(k),
        forall|k2: u32|
            k2 != k && m.contains_key(k2) ==> {
                &&& #[trigger] m.insert(k, v).contains_key(k2)
                &&& m.insert(k, v)[k2] == m[k2]
                &&& m.remove(k).contains_key(k2)
                &&& m.remove(k)[k2] == m[k2]
            },
{
}

/// Swap-removal relocates exactly the last record into the vacated slot:
/// the removed slot now holds what was last, every other slot is
/// untouched, and one slot is gone.
pub proof fn lemma_swap_removal_relocates<A>(records: Seq<A>, i: int)
    requires
        0 <= i < records.len(),
    ensures
        swap_remove_seq(records, i).len() == records.len() - 1,
        i < records.len() - 1 ==> swap_remove_seq(records, i)[i] == records[records.len() - 1],
        forall|j: int|
            0 <= j < records.len() - 1 && j != i ==> swap_remove_seq(records, i)[j] == records[j],
{
}

pub struct SparseMap<T> {
    data: Vec<SparseMapItem<T>>,
    map: HashMap<u32, usize>,
}

impl<T> View for SparseMap<T> {
    type V = Map<u32, T>;

    /// The store seen as a map from keys to values.
    closed spec fn view(&self) -> Map<u32, T> {
        Map::new(
            |k: u32| self.map@.contains_key(k),
            |k: u32| self.data@[self.map@[k] as int].value,
        )
    }
}

impl<T> SparseMap<T> {
    /// Internal consistency: the index map and the dense array point at
    /// each other, which also forces the dense keys to be distinct.
    pub closed spec fn wf(&self) -> bool {
        &&& forall|i: int|
            0 <= i < self.data@.len() ==> {
                &&& self.map@.contains_key((#[trigger] self.data@[i]).key)
                &&& self.map@[self.data@[i].key] == i
            }
        &&& forall|k: u32|
            #[trigger] self.map@.contains_key(k) ==> {
                &&& self.map@[k] < self.data@.len()
                &&& self.data@[self.map@[k] as int].key == k
            }
    }

    /// The dense contents in their current order, as key/value pairs.
    pub closed spec fn items(&self) -> Seq<(u32, T)> {
        Seq::new(self.data@.len(), |i: int| (self.data@[i].key, self.data@[i].value))
    }

    /// The dense position a present key currently occupies.
    pub closed spec fn dense_index_of(&self, key: u32) -> int {
        self.map@[key] as int
    }

    /// How the dense order and the map view of the store correspond.
    pub proof fn lemma_model(&self)
        requires
            self.wf(),
        ensures
            forall|i: int|
                0 <= i < self.items().len() ==> {
                    &&& self@.contains_key((#[trigger] self.items()[i]).0)
                    &&& self@[self.items()[i].0] == self.items()[i].1
                    &&& self.dense_index_of(self.items()[i].0) == i
                },
            forall|k: u32|
                #[trigger] self@.contains_key(k) ==> {
                    &&& 0 <= self.dense_index_of(k) < self.items().len()
                    &&& self.items()[self.dense_index_of(k)] == (k, self@[k])
                },
    {
    }

    pub fn new() -> (m: SparseMap<T>)
        ensures
            m.wf(),
            m@ == Map::<u32, T>::empty(),
            m.items() == Seq::<(u32, T)>::empty(),
    {
        let m = SparseMap { data: Vec::new(), map: HashMap::new() };
        proof {
            assert(m@ =~= Map::<u32, T>::empty());
            assert(m.items() =~= Seq::<(u32, T)>::empty());
        }
        m
    }

    /// Insert a value under `key`. A key already present is overwritten in
    /// place: its dense slot keeps its position and takes the new value.
    pub fn insert(&mut self, key: u32, value: T)
        requires
            old(self).wf(),
        ensures
            final(self).wf(),
            final(self)@ == old(self)@.insert(key, value),
            !old(self)@.contains_key(key) ==> final(self).items() == old(self).items().push(
                (key, value),
            ),
            old(self)@.contains_key(key) ==> final(self).items() == old(self).items().update(
                old(self).dense_index_of(key),
                (key, value),
            ),
            old(self)@.contains_key(key) ==> final(self).dense_index_of(key) == old(
                self,
            ).dense_index_of(key),
    {
        let ghost old_self = *self;
        let existing: Option<&usize> = self.map.get(&key);
        match existing {
            Some(i_ref) => {
                let i: usize = *i_ref;
                self.data.set(i, SparseMapItem { key, value });
                proof {
                    assert(self@ =~= old_self@.insert(key, value));
                    assert(self.items() =~= old_self.items().update(
                        old_self.dense_index_of(key),
                        (key, value),
                    ));
                }
            },
            None => {
                let i: usize = self.data.len();
                self.map.insert(key, i);
                self.data.push(SparseMapItem { key, value });
                proof {
                    assert(self@ =~= old_self@.insert(key, value));
                    assert(self.items() =~= old_self.items().push((key, value)));
                }
            },
        }
    }

    pub fn contains_key(&self, key: u32) -> (present: bool)
        requires
            self.wf(),
        ensures
            present == self@.contains_key(key),
    {
        self.map.contains_key(&key)
    }

    /// Borrow the value stored under a present key. An absent key is a
    /// caller error, ruled out by precondition.
    pub fn get(&self, key: u32) -> (v: &T)
        requires
            self.wf(),
            self@.contains_key(key),
        ensures
            *v == self@[key],
    {
        let i: usize = *self.map.get(&key).unwrap();
        &self.data[i].value
    }

    /// Mutably borrow the value stored under a present key; the key and the
    /// dense order stay as they are, only this value changes.
    pub fn get_mut(&mut self, key: u32) -> (v: &mut T)
        requires
            old(self).wf(),
            old(self)@.contains_key(key),
        ensures
            *v == old(self)@[key],
            final(self).wf(),
            final(self)@ == old(self)@.insert(key, *final(v)),
            final(self).items() == old(self).items().update(
                old(self).dense_index_of(key),
                (key, *final(v)),
            ),
    {
        let i: usize = *self.map.get(&key).unwrap();
        &mut self.data[i].value
    }

    /// Remove a present key. Its dense slot is refilled by the dense-last
    /// record, whose key keeps its value but moves position; every other
    /// key keeps both its value and its position.
    pub fn remove(&mut self, key: u32)
        requires
            old(self).wf(),
            old(self)@.contains_key(key),
        ensures
            final(self).wf(),
            final(self)@ == old(self)@.remove(key),
            final(self).items() == swap_remove_seq(
                old(self).items(),
                old(self).dense_index_of(key),
            ),
            0 <= old(self).dense_index_of(key) < old(self).items().len(),
            old(self).items()[old(self).dense_index_of(key)] == (key, old(self)@[key]),
    {
        let ghost old_self = *self;
        let i: usize = *self.map.get(&key).unwrap();
        self.data.swap_remove(i);
        if i < self.data.len() {
            let moved_key: u32 = self.data[i].get_key();
            self.map.insert(moved_key, i);
        }
        self.map.remove(&key);
        proof {
            assert(self@ =~= old_self@.remove(key));
            assert(self.items() =~= swap_remove_seq(
                old_self.items(),
                old_self.dense_index_of(key),
            ));
        }
    }

    /// The dense records, for read-only iteration in the current order.
    pub fn all_iter(&self) -> (records: &Vec<SparseMapItem<T>>)
        requires
            self.wf(),
        ensures
            records@.len() == self.items().len(),
            forall|i: int|
                0 <= i < records@.len() ==> {
                    &&& (#[trigger] records@[i]).spec_key() == self.items()[i].0
                    &&& records@[i].value == self.items()[i].1
                },
    {
        &self.data
    }

    /// Mutably borrow the value in dense slot `index`, for iteration that
    /// rewrites values in place; keys and the dense order cannot change
    /// through this, so inserts and removals during iteration are ruled
    /// out by construction.
    pub fn all_iter_mut(&mut self, index: usize) -> (v: &mut T)
        requires
            old(self).wf(),
            index < old(self).items().len(),
        ensures
            *v == old(self).items()[index as int].1,
            final(self).wf(),
            final(self).items() == old(self).items().update(
                index as int,
                (old(self).items()[index as int].0, *final(v)),
            ),
            final(self)@ == old(self)@.insert(old(self).items()[index as int].0, *final(v)),
    {
        &mut self.data[index].value
    }

    /// Borrow the dense record in slot `index`.
    pub fn item_at(&self, index: usize) -> (rec: &SparseMapItem<T>)
        requires
            self.wf(),
            index < self.items().len(),
        ensures
            rec.key == self.items()[index as int].0,
            rec.value == self.items()[index as int].1,
    {
        &self.data[index]
    }

    /// The number of stored records.
    pub fn len(&self) -> (n: usize)
        ensures
            n == self.items().len(),
    {
        self.data.len()
    }
}

} // verus!
