//! The operations of `HashMap`, over its view as a map, and its entries.
use crate::entry_api::Entry;
use crate::entry_api::EntryApi;
use crate::entry_api::KeyVacantEntry;
use crate::entry_api::OccupiedEntry;
use crate::entry_api::Slot;
use crate::entry_api::VacantEntry;
use crate::Capacity;
use crate::Clear;
use crate::Collection;
use crate::CollectionMut;
use crate::CollectionRef;
use crate::Get;
use crate::GetKeyValue;
use crate::GetMut;
use crate::Iter;
use crate::Keyed;
use crate::KeyedRef;
use crate::Len;
use crate::MapInsert;
use crate::MapIter;
use crate::MapIterMut;
use crate::Remove;
use crate::Reserve;
use crate::SimpleCollectionMut;
use crate::SimpleCollectionRef;
use crate::WithCapacity;
use std::collections::HashMap;
use std::hash::Hash;
use vstd::prelude::*;
use vstd::std_specs::hash::obeys_key_model;
use vstd::std_specs::iter::IteratorSpec;

verus! {

/// `HashMap::capacity`: a lower bound of the number of elements that the map can hold without
/// reallocating. Nothing is claimed of it.
#[verifier::external_body]
fn hash_map_capacity<K, V>(map: &HashMap<K, V>) -> usize {
    map.capacity()
}

/// `HashMap::get_mut`: a mutable reference to the value that `key` maps to, if the map holds the
/// key. What is written through the reference becomes the value of the key, and nothing else
/// in the map changes. Where the map does not hold the key, the map is left as it was.
#[verifier::external_body]
fn hash_map_get_mut<'a, K: Hash + Eq, V>(map: &'a mut HashMap<K, V>, key: &K) -> (r: Option<
    &'a mut V,
>)
    ensures
        obeys_key_model::<K>() ==> match r {
            Some(value) => old(map)@.contains_key(*key) && *value == old(map)@[*key]
                && final(map)@ == old(map)@.insert(*key, *final(value)),
            None => !old(map)@.contains_key(*key) && *final(map) == *old(map),
        },
{
    map.get_mut(key)
}

/// `HashMap::get_key_value`: the key that the map holds and the value it maps to, if the map
/// holds a key equal to `key`.
#[verifier::external_body]
fn hash_map_get_key_value<'a, K: Hash + Eq, V>(map: &'a HashMap<K, V>, key: &K) -> (r: Option<
    (&'a K, &'a V),
>)
    ensures
        obeys_key_model::<K>() ==> match r {
            Some((k, value)) => *k == *key && map@.contains_key(*key) && *value == map@[*key],
            None => !map@.contains_key(*key),
        },
{
    map.get_key_value(key)
}

/// `std::collections::hash_map::IterMut`, the iterator that `HashMap::iter_mut` gives. Nothing is
/// known of what is inside it.
#[verifier::external_type_specification]
#[verifier::external_body]
#[verifier::reject_recursive_types(K)]
#[verifier::reject_recursive_types(V)]
pub struct ExIterMut<'a, K: 'a, V: 'a>(std::collections::hash_map::IterMut<'a, K, V>);

/// `HashMap::iter_mut`: an iterator that hands out each key of the map once, with a mutable
/// reference to the value that it maps to, and then ends. What is written through a reference
/// becomes the value of its key, and the map keeps its keys.
#[verifier::external_body]
fn hash_map_iter_mut<'a, K, V>(map: &'a mut HashMap<K, V>) -> (it: std::collections::hash_map::IterMut<
    'a,
    K,
    V,
>)
    ensures
        obeys_key_model::<K>() ==> {
            &&& it.obeys_prophetic_iter_laws()
            &&& final(map)@.dom() == old(map)@.dom()
            &&& forall|i: int, j: int|
                0 <= i < j < it.remaining().len() ==> *(#[trigger] it.remaining()[i]).0 != *(
                #[trigger] it.remaining()[j]).0
            &&& forall|k: K| #[trigger]
                old(map)@.contains_key(k) ==> exists|i: int|
                    0 <= i < it.remaining().len() && *(#[trigger] it.remaining()[i]).0 == k
            &&& forall|i: int|
                0 <= i < it.remaining().len() ==> {
                    let pair = #[trigger] it.remaining()[i];
                    &&& old(map)@.contains_key(*pair.0)
                    &&& *pair.1 == old(map)@[*pair.0]
                    &&& final(map)@[*pair.0] == *final(pair.1)
                }
        },
{
    map.iter_mut()
}

/// `HashMap::remove_entry`: removes a key from the map, and returns the key that the map held
/// and the value that it mapped to, if the map held a key equal to `key`. Where the map does
/// not hold the key, the map stays as it was.
#[verifier::external_body]
fn hash_map_remove_entry<K: Hash + Eq, V>(map: &mut HashMap<K, V>, key: &K) -> (r: Option<(K, V)>)
    ensures
        obeys_key_model::<K>() ==> match r {
            Some((k, value)) => k == *key && old(map)@.contains_key(*key)
                && value == old(map)@[*key] && final(map)@ == old(map)@.remove(*key),
            None => !old(map)@.contains_key(*key) && final(map)@ == old(map)@,
        },
{
    map.remove_entry(key)
}

impl<K, V> Collection for HashMap<K, V> {
    type Item = V;

    open spec fn obeys_model() -> bool {
        obeys_key_model::<K>()
    }
}

impl<K, V> CollectionRef for HashMap<K, V> {
    fn upcast_item_ref<'short, 'long: 'short>(r: &'long V) -> (s: &'short V) where Self: 'long {
        r
    }
}

impl<K, V> CollectionMut for HashMap<K, V> {
    fn upcast_item_mut<'short, 'long: 'short>(r: &'long mut V) -> (s: &'short mut V) where
        Self: 'long,
    {
        r
    }
}

impl<K, V> SimpleCollectionRef for HashMap<K, V> {
    fn into_ref<'r>(r: &'r V) -> (s: &'r V) where Self: 'r {
        r
    }
}

impl<K, V> SimpleCollectionMut for HashMap<K, V> {
    fn into_mut<'r>(r: &'r mut V) -> (s: &'r mut V) where Self: 'r {
        r
    }
}

impl<K, V> Keyed for HashMap<K, V> {
    type Key = K;
}

impl<K, V> KeyedRef for HashMap<K, V> {
    fn upcast_key_ref<'short, 'long: 'short>(r: &'long K) -> (s: &'short K) where Self: 'long {
        r
    }
}

impl<K, V> WithCapacity for HashMap<K, V> {
    open spec fn spec_new(&self) -> bool {
        self@ == Map::<K, V>::empty()
    }

    #[inline(always)]
    fn with_capacity(capacity: usize) -> (c: Self) {
        HashMap::with_capacity(capacity)
    }
}

impl<K, V> Len for HashMap<K, V> {
    open spec fn spec_len(&self) -> nat {
        self@.len()
    }

    #[inline(always)]
    fn len(&self) -> (n: usize) {
        self.len()
    }

    #[inline(always)]
    fn is_empty(&self) -> (b: bool) {
        proof {
            assert((*self)@.dom().finite());
            if (*self)@.len() == 0 {
                (*self)@.dom().lemma_len0_is_empty();
            }
        }
        self.is_empty()
    }
}

impl<'a, K: Hash + Eq, V> Get<&'a K> for HashMap<K, V> {
    open spec fn spec_get(&self, key: &'a K) -> Option<V> {
        if self@.contains_key(*key) {
            Some(self@[*key])
        } else {
            None
        }
    }

    #[inline(always)]
    fn get(&self, key: &'a K) -> (r: Option<&V>) {
        assert(Self::obeys_model() ==> obeys_key_model::<K>());
        self.get(key)
    }
}

impl<K, V> Capacity for HashMap<K, V> {
    /// Nothing is said of the capacity of a hash map: the number that the map reports is a
    /// lower bound of what it can hold, and how it stands to what the map holds is left open.
    open spec fn spec_capacity(&self, capacity: usize) -> bool {
        true
    }

    #[inline(always)]
    fn capacity(&self) -> (capacity: usize) {
        hash_map_capacity(self)
    }
}

impl<K: Hash + Eq, V> Reserve for HashMap<K, V> {
    open spec fn spec_reserve(&self, after: &Self) -> bool {
        after@ == self@
    }

    #[inline(always)]
    fn reserve(&mut self, additional: usize) {
        self.reserve(additional)
    }
}

impl<'a, K: Hash + Eq, V> GetMut<&'a K> for HashMap<K, V> {
    open spec fn spec_set(&self, key: &'a K, item: V, after: &Self) -> bool {
        after@ == self@.insert(*key, item)
    }

    #[inline(always)]
    fn get_mut(&mut self, key: &'a K) -> (r: Option<&mut V>) {
        hash_map_get_mut(self, key)
    }
}

impl<'a, K: Hash + Eq, V> GetKeyValue<&'a K> for HashMap<K, V> {
    open spec fn spec_get_key_value(&self, key: &'a K) -> Option<(K, V)> {
        if self@.contains_key(*key) {
            Some((*key, self@[*key]))
        } else {
            None
        }
    }

    #[inline(always)]
    fn get_key_value(&self, key: &'a K) -> (r: Option<(&K, &V)>) {
        hash_map_get_key_value(self, key)
    }
}

impl<K: Hash + Eq, V> MapInsert<K> for HashMap<K, V> {
    type Output = Option<V>;

    open spec fn spec_map_insert(&self, key: K, value: V, after: &Self, output: Option<V>) -> bool {
        &&& after@ == self@.insert(key, value)
        &&& output == if self@.contains_key(key) {
            Some(self@[key])
        } else {
            None
        }
    }

    #[inline(always)]
    fn insert(&mut self, key: K, value: V) -> (output: Option<V>) {
        self.insert(key, value)
    }
}

impl<'a, K: Hash + Eq, V> Remove<&'a K> for HashMap<K, V> {
    open spec fn spec_remove(&self, key: &'a K, after: &Self, output: Option<V>) -> bool {
        &&& after@ == self@.remove(*key)
        &&& output == if self@.contains_key(*key) {
            Some(self@[*key])
        } else {
            None
        }
    }

    #[inline(always)]
    fn remove(&mut self, key: &'a K) -> (output: Option<V>) {
        self.remove(key)
    }
}

impl<K, V> Clear for HashMap<K, V> {
    open spec fn spec_clear(&self) -> bool {
        self@ == Map::<K, V>::empty()
    }

    #[inline(always)]
    fn clear(&mut self) {
        self.clear()
    }
}

impl<'a, K: 'a, V: 'a> Iter<'a> for HashMap<K, V> {
    type Iter = std::collections::hash_map::Values<'a, K, V>;

    /// As many values come as the map has keys, in no stated order, and they are the values of
    /// the map.
    open spec fn spec_iter(&self, items: Seq<V>) -> bool {
        items.len() == self@.len() && items.to_set() == self@.values()
    }

    #[inline(always)]
    fn iter(&'a self) -> (it: Self::Iter) {
        self.values()
    }
}

impl<'a, K: 'a, V: 'a> MapIter<'a> for HashMap<K, V> {
    type Iter = std::collections::hash_map::Iter<'a, K, V>;

    /// Each pair of the map comes once, in no stated order.
    open spec fn spec_map_iter(&self, pairs: Seq<(K, V)>) -> bool {
        pairs.no_duplicates() && pairs.to_set() == self@.kv_pairs()
    }

    #[inline(always)]
    fn iter(&'a self) -> (it: Self::Iter) {
        let it = self.iter();
        proof {
            let r = it.remaining();
            assert forall|i: int, j: int|
                Self::obeys_model() && 0 <= i < j < r.unref().len() implies r.unref()[i]
                != r.unref()[j] by {
                assert(r[i] != r[j]);
            }
        }
        it
    }
}

impl<'a, K: 'a, V: 'a> MapIterMut<'a> for HashMap<K, V> {
    type IterMut = std::collections::hash_map::IterMut<'a, K, V>;

    /// Each pair of the map comes once, in no stated order.
    open spec fn spec_map_iter_mut(
        &self,
        pairs: Seq<(K, V)>,
        written: Seq<V>,
        after: &Self,
    ) -> bool {
        &&& pairs.len() == written.len()
        &&& forall|i: int, j: int| 0 <= i < j < pairs.len() ==> pairs[i].0 != pairs[j].0
        &&& pairs.to_set() =~= self@.kv_pairs()
        &&& after@.dom() == self@.dom()
        &&& forall|i: int| 0 <= i < pairs.len() ==> after@[pairs[i].0] == written[i]
    }

    #[inline(always)]
    fn iter_mut(&'a mut self) -> (it: Self::IterMut) {
        let it = hash_map_iter_mut(self);
        proof {
            if Self::obeys_model() {
                let r = it.remaining();
                let pairs = Seq::new(r.len(), |i: int| (*r[i].0, *r[i].1));
                let before = old(self)@;
                assert forall|p: (K, V)| pairs.to_set().contains(p) <==> before.kv_pairs().contains(
                    p,
                ) by {
                    if pairs.to_set().contains(p) {
                        let i = choose|i: int| 0 <= i < pairs.len() && pairs[i] == p;
                        assert(before.contains_key(*r[i].0));
                    }
                    if before.kv_pairs().contains(p) {
                        let i = choose|i: int| 0 <= i < r.len() && *(#[trigger] r[i]).0 == p.0;
                        assert(pairs[i] == p);
                    }
                }
            }
        }
        it
    }
}

/// The entry of a key that a `HashMap` holds.
pub struct HashMapOccupied<'a, K, V> {
    map: &'a mut HashMap<K, V>,
    key: K,
}

/// The entry of a key that a `HashMap` does not hold.
pub struct HashMapVacant<'a, K, V> {
    map: &'a mut HashMap<K, V>,
    key: K,
}

impl<'a, K: Hash + Eq, V> OccupiedEntry<'a> for HashMapOccupied<'a, K, V> {
    type K = K;

    type V = V;

    type Target = HashMap<K, V>;

    closed spec fn inv(self) -> bool {
        obeys_key_model::<K>() && self.map@.contains_key(self.key)
    }

    closed spec fn target(self) -> &'a mut HashMap<K, V> {
        self.map
    }

    closed spec fn spec_key(self) -> K {
        self.key
    }

    proof fn lemma_occupied(self) {
    }

    proof fn lemma_resolved(self) {
        assert(has_resolved(self) ==> has_resolved(self.map));
    }

    #[inline(always)]
    fn key(&self) -> (k: &K) {
        hash_map_get_key_value(self.map, &self.key).unwrap().0
    }

    #[inline(always)]
    fn remove_entry(self) -> (kv: (K, V)) {
        hash_map_remove_entry(self.map, &self.key).unwrap()
    }

    #[inline(always)]
    fn get(&self) -> (v: &V) {
        self.map.get(&self.key).unwrap()
    }

    #[inline(always)]
    fn get_mut(&mut self) -> (v: &mut V) {
        hash_map_get_mut(self.map, &self.key).unwrap()
    }

    #[inline(always)]
    fn into_mut(self) -> (v: &'a mut V) {
        hash_map_get_mut(self.map, &self.key).unwrap()
    }

    #[inline(always)]
    fn insert(&mut self, value: V) -> (old_value: V) {
        let mut value = value;
        core::mem::swap(hash_map_get_mut(self.map, &self.key).unwrap(), &mut value);
        value
    }

    #[inline(always)]
    fn remove(self) -> (v: V) {
        self.map.remove(&self.key).unwrap()
    }
}

impl<'a, K: Hash + Eq, V> VacantEntry<'a> for HashMapVacant<'a, K, V> {
    type K = K;

    type V = V;

    type Target = HashMap<K, V>;

    closed spec fn inv(self) -> bool {
        obeys_key_model::<K>() && !self.map@.contains_key(self.key)
    }

    closed spec fn target(self) -> &'a mut HashMap<K, V> {
        self.map
    }

    closed spec fn spec_key(self) -> K {
        self.key
    }

    proof fn lemma_vacant(self) {
    }

    proof fn lemma_resolved(self) {
        assert(has_resolved(self) ==> has_resolved(self.map));
    }

    #[inline(always)]
    fn insert(self, value: V) -> (v: &'a mut V) {
        self.map.entry(self.key).or_insert(value)
    }
}

impl<'a, K: Hash + Eq, V> KeyVacantEntry<'a> for HashMapVacant<'a, K, V> {
    #[inline(always)]
    fn key(&self) -> (k: &K) {
        &self.key
    }

    #[inline(always)]
    fn into_key(self) -> (k: K) {
        self.key
    }
}

impl<'a, K: Hash + Eq + 'a, V: 'a> EntryApi<'a> for HashMap<K, V> {
    type Occ = HashMapOccupied<'a, K, V>;

    type Vac = HashMapVacant<'a, K, V>;

    #[inline(always)]
    fn entry(&'a mut self, key: K) -> (e: Entry<Self::Occ, Self::Vac>) {
        if self.contains_key(&key) {
            Entry::Occupied(HashMapOccupied { map: self, key })
        } else {
            Entry::Vacant(HashMapVacant { map: self, key })
        }
    }
}

/// What was inserted through a vacant entry is what `get` then finds under the key: `after` is
/// the map that the entry leaves where `value` is the last that was written through the
/// reference that `insert` gave.
pub proof fn lemma_vacant_insert_then_get<K: Hash + Eq, V>(
    before: HashMap<K, V>,
    after: HashMap<K, V>,
    key: K,
    value: V,
)
    requires
        !before@.contains_key(key),
        after@ == (Slot { map: before@, key }).stored(value),
    ensures
        after.spec_get(&key) == Some(value),
        forall|other: K| other != key ==> #[trigger] after.spec_get(&other) == before.spec_get(&other),
{
}

/// Once an occupied entry was removed, the map no longer contains its key: `after` is the map
/// that `remove_entry` leaves.
pub proof fn lemma_remove_entry_then_contains<K: Hash + Eq, V>(
    before: HashMap<K, V>,
    after: HashMap<K, V>,
    key: K,
)
    requires
        before@.contains_key(key),
        after@ == (Slot { map: before@, key }).removed(),
    ensures
        after.spec_get(&key) is None,
        forall|other: K| other != key ==> #[trigger] after.spec_get(&other) == before.spec_get(&other),
{
}

} // verus!
