//! The operations of `BTreeMap`, over its view as a map, and its entries.
use crate::entry_api::Entry;
use crate::entry_api::EntryApi;
use crate::entry_api::KeyVacantEntry;
use crate::entry_api::OccupiedEntry;
use crate::entry_api::Slot;
use crate::entry_api::VacantEntry;
use crate::Clear;
use crate::Collection;
use crate::CollectionMut;
use crate::CollectionRef;
use crate::Get;
use crate::GetKeyValue;
use crate::GetMut;
use crate::Iter;
use crate::Keyed;
use crate::KeyedRef;
use crate::Len;
use crate::MapInsert;
use crate::MapIter;
use crate::MapIterMut;
use crate::Remove;
use crate::SimpleCollectionMut;
use crate::SimpleCollectionRef;
use std::collections::BTreeMap;
use vstd::prelude::*;
use vstd::std_specs::btree::increasing_seq;
use vstd::std_specs::btree::key_obeys_cmp_spec;
use vstd::std_specs::iter::IteratorSpec;

verus! {

/// `BTreeMap::get_mut`: a mutable reference to the value that `key` maps to, if the map holds the
/// key. What is written through the reference becomes the value of the key, and nothing else
/// in the map changes. Where the map does not hold the key, the map is left as it was.
#[verifier::external_body]
fn btree_map_get_mut<'a, K: Ord, V>(map: &'a mut BTreeMap<K, V>, key: &K) -> (r: Option<
    &'a mut V,
>)
    ensures
        key_obeys_cmp_spec::<K>() ==> match r {
            Some(value) => old(map)@.contains_key(*key) && *value == old(map)@[*key]
                && final(map)@ == old(map)@.insert(*key, *final(value)),
            None => !old(map)@.contains_key(*key) && *final(map) == *old(map),
        },
{
    map.get_mut(key)
}

/// `BTreeMap::get_key_value`: the key that the map holds and the value it maps to, if the map
/// holds a key equal to `key`.
#[verifier::external_body]
fn btree_map_get_key_value<'a, K: Ord, V>(map: &'a BTreeMap<K, V>, key: &K) -> (r: Option<
    (&'a K, &'a V),
>)
    ensures
        key_obeys_cmp_spec::<K>() ==> match r {
            Some((k, value)) => *k == *key && map@.contains_key(*key) && *value == map@[*key],
            None => !map@.contains_key(*key),
        },
{
    map.get_key_value(key)
}

/// `BTreeMap::entry` and then `Entry::or_insert` on the entry: a mutable reference to the value
/// that `key` maps to, after `value` was inserted under it where the map did not hold the key.
/// What is written through the reference becomes the value of the key, and nothing else in the
/// map changes.
#[verifier::external_body]
fn btree_map_entry_or_insert<'a, K: Ord, V>(map: &'a mut BTreeMap<K, V>, key: K, value: V) -> (r:
    &'a mut V)
    ensures
        key_obeys_cmp_spec::<K>() ==> *r == (if old(map)@.contains_key(key) {
            old(map)@[key]
        } else {
            value
        }) && final(map)@ == old(map)@.insert(key, *final(r)),
{
    map.entry(key).or_insert(value)
}

/// `std::collections::btree_map::IterMut`, the iterator that `BTreeMap::iter_mut` gives. Nothing is
/// known of what is inside it.
#[verifier::external_type_specification]
#[verifier::external_body]
#[verifier::reject_recursive_types(K)]
#[verifier::reject_recursive_types(V)]
pub struct ExIterMut<'a, K: 'a, V: 'a>(std::collections::btree_map::IterMut<'a, K, V>);

/// `BTreeMap::iter_mut`: an iterator that hands out each key of the map once, in increasing
/// order, with a mutable reference to the value that it maps to, and then ends. What is written
/// through a reference becomes the value of its key, and the map keeps its keys.
#[verifier::external_body]
fn btree_map_iter_mut<'a, K, V>(map: &'a mut BTreeMap<K, V>) -> (it: std::collections::btree_map::IterMut<
    'a,
    K,
    V,
>)
    ensures
        key_obeys_cmp_spec::<K>() ==> {
            &&& it.obeys_prophetic_iter_laws()
            &&& increasing_seq(Seq::new(it.remaining().len(), |i: int| *it.remaining()[i].0))
            &&& final(map)@.dom() == old(map)@.dom()
            &&& forall|i: int, j: int|
                0 <= i < j < it.remaining().len() ==> *(#[trigger] it.remaining()[i]).0 != *(
                #[trigger] it.remaining()[j]).0
            &&& forall|k: K| #[trigger]
                old(map)@.contains_key(k) ==> exists|i: int|
                    0 <= i < it.remaining().len() && *(#[trigger] it.remaining()[i]).0 == k
            &&& forall|i: int|
                0 <= i < it.remaining().len() ==> {
                    let pair = #[trigger] it.remaining()[i];
                    &&& old(map)@.contains_key(*pair.0)
                    &&& *pair.1 == old(map)@[*pair.0]
                    &&& final(map)@[*pair.0] == *final(pair.1)
                }
        },
{
    map.iter_mut()
}

/// `BTreeMap::remove_entry`: removes a key from the map, and returns the key that the map held
/// and the value that it mapped to, if the map held a key equal to `key`. Where the map does
/// not hold the key, the map stays as it was.
#[verifier::external_body]
fn btree_map_remove_entry<K: Ord, V>(map: &mut BTreeMap<K, V>, key: &K) -> (r: Option<(K, V)>)
    ensures
        key_obeys_cmp_spec::<K>() ==> match r {
            Some((k, value)) => k == *key && old(map)@.contains_key(*key)
                && value == old(map)@[*key] && final(map)@ == old(map)@.remove(*key),
            None => !old(map)@.contains_key(*key) && final(map)@ == old(map)@,
        },
{
    map.remove_entry(key)
}

impl<K, V> Collection for BTreeMap<K, V> {
    type Item = V;

    open spec fn obeys_model() -> bool {
        key_obeys_cmp_spec::<K>()
    }
}

impl<K, V> CollectionRef for BTreeMap<K, V> {
    fn upcast_item_ref<'short, 'long: 'short>(r: &'long V) -> (s: &'short V) where Self: 'long {
        r
    }
}

impl<K, V> CollectionMut for BTreeMap<K, V> {
    fn upcast_item_mut<'short, 'long: 'short>(r: &'long mut V) -> (s: &'short mut V) where
        Self: 'long,
    {
        r
    }
}

impl<K, V> SimpleCollectionRef for BTreeMap<K, V> {
    fn into_ref<'r>(r: &'r V) -> (s: &'r V) where Self: 'r {
        r
    }
}

impl<K, V> SimpleCollectionMut for BTreeMap<K, V> {
    fn into_mut<'r>(r: &'r mut V) -> (s: &'r mut V) where Self: 'r {
        r
    }
}

impl<K, V> Keyed for BTreeMap<K, V> {
    type Key = K;
}

impl<K, V> KeyedRef for BTreeMap<K, V> {
    fn upcast_key_ref<'short, 'long: 'short>(r: &'long K) -> (s: &'short K) where Self: 'long {
        r
    }
}

impl<K, V> Len for BTreeMap<K, V> {
    open spec fn spec_len(&self) -> nat {
        self@.len()
    }

    #[inline(always)]
    fn len(&self) -> (n: usize) {
        self.len()
    }

    #[inline(always)]
    fn is_empty(&self) -> (b: bool) {
        proof {
            assert((*self)@.dom().finite());
            if (*self)@.len() == 0 {
                (*self)@.dom().lemma_len0_is_empty();
            }
        }
        self.is_empty()
    }
}

impl<'a, K: Ord, V> Get<&'a K> for BTreeMap<K, V> {
    open spec fn spec_get(&self, key: &'a K) -> Option<V> {
        if self@.contains_key(*key) {
            Some(self@[*key])
        } else {
            None
        }
    }

    #[inline(always)]
    fn get(&self, key: &'a K) -> (r: Option<&V>) {
        assert(Self::obeys_model() ==> key_obeys_cmp_spec::<K>());
        self.get(key)
    }
}

impl<'a, K: Ord, V> GetMut<&'a K> for BTreeMap<K, V> {
    open spec fn spec_set(&self, key: &'a K, item: V, after: &Self) -> bool {
        after@ == self@.insert(*key, item)
    }

    #[inline(always)]
    fn get_mut(&mut self, key: &'a K) -> (r: Option<&mut V>) {
        btree_map_get_mut(self, key)
    }
}

impl<'a, K: Ord, V> GetKeyValue<&'a K> for BTreeMap<K, V> {
    open spec fn spec_get_key_value(&self, key: &'a K) -> Option<(K, V)> {
        if self@.contains_key(*key) {
            Some((*key, self@[*key]))
        } else {
            None
        }
    }

    #[inline(always)]
    fn get_key_value(&self, key: &'a K) -> (r: Option<(&K, &V)>) {
        btree_map_get_key_value(self, key)
    }
}

impl<K: Ord, V> MapInsert<K> for BTreeMap<K, V> {
    type Output = Option<V>;

    open spec fn spec_map_insert(&self, key: K, value: V, after: &Self, output: Option<V>) -> bool {
        &&& after@ == self@.insert(key, value)
        &&& output == if self@.contains_key(key) {
            Some(self@[key])
        } else {
            None
        }
    }

    #[inline(always)]
    fn insert(&mut self, key: K, value: V) -> (output: Option<V>) {
        self.insert(key, value)
    }
}

impl<'a, K: Ord, V> Remove<&'a K> for BTreeMap<K, V> {
    open spec fn spec_remove(&self, key: &'a K, after: &Self, output: Option<V>) -> bool {
        &&& after@ == self@.remove(*key)
        &&& output == if self@.contains_key(*key) {
            Some(self@[*key])
        } else {
            None
        }
    }

    #[inline(always)]
    fn remove(&mut self, key: &'a K) -> (output: Option<V>) {
        self.remove(key)
    }
}

impl<K, V> Clear for BTreeMap<K, V> {
    open spec fn spec_clear(&self) -> bool {
        self@ == Map::<K, V>::empty()
    }

    #[inline(always)]
    fn clear(&mut self) {
        self.clear()
    }
}

impl<'a, K: 'a, V: 'a> Iter<'a> for BTreeMap<K, V> {
    type Iter = std::collections::btree_map::Values<'a, K, V>;

    /// The values come in the increasing order of their keys.
    open spec fn spec_iter(&self, items: Seq<V>) -> bool {
        exists|keys: Seq<K>|
            {
                &&& #[trigger] increasing_seq(keys)
                &&& keys.no_duplicates()
                &&& keys.to_set() == self@.dom()
                &&& keys.map(|i: int, k: K| self@[k]) == items
            }
    }

    #[inline(always)]
    fn iter(&'a self) -> (it: Self::Iter) {
        let it = self.values();
        proof {
            if Self::obeys_model() {
                let keys = choose|keys: Seq<K>|
                    {
                        &&& increasing_seq(keys)
                        &&& keys.to_set() == self@.dom()
                        &&& keys.no_duplicates()
                        &&& it.remaining() == keys.map(|i: int, k: K| &self@[k])
                    };
                assert(keys.map(|i: int, k: K| self@[k]) =~= it.remaining().unref());
            }
        }
        it
    }
}

impl<'a, K: 'a, V: 'a> MapIter<'a> for BTreeMap<K, V> {
    type Iter = std::collections::btree_map::Iter<'a, K, V>;

    /// The pairs come in the increasing order of their keys.
    open spec fn spec_map_iter(&self, pairs: Seq<(K, V)>) -> bool {
        &&& pairs.no_duplicates()
        &&& pairs.to_set() == self@.kv_pairs()
        &&& increasing_seq(pairs.map_values(|kv: (K, V)| kv.0))
    }

    #[inline(always)]
    fn iter(&'a self) -> (it: Self::Iter) {
        let it = self.iter();
        proof {
            let r = it.remaining();
            assert forall|i: int, j: int|
                Self::obeys_model() && 0 <= i < j < r.unref().len() implies r.unref()[i]
                != r.unref()[j] by {
                assert(r[i] != r[j]);
            }
            assert(r.unref().map_values(|kv: (K, V)| kv.0) =~= r.map_values(
                |kv: (&K, &V)| *kv.0,
            ));
        }
        it
    }
}

impl<'a, K: 'a, V: 'a> MapIterMut<'a> for BTreeMap<K, V> {
    type IterMut = std::collections::btree_map::IterMut<'a, K, V>;

    /// The pairs come in the increasing order of their keys.
    open spec fn spec_map_iter_mut(
        &self,
        pairs: Seq<(K, V)>,
        written: Seq<V>,
        after: &Self,
    ) -> bool {
        &&& pairs.len() == written.len()
        &&& increasing_seq(pairs.map_values(|kv: (K, V)| kv.0))
        &&& forall|i: int, j: int| 0 <= i < j < pairs.len() ==> pairs[i].0 != pairs[j].0
        &&& pairs.to_set() =~= self@.kv_pairs()
        &&& after@.dom() == self@.dom()
        &&& forall|i: int| 0 <= i < pairs.len() ==> after@[pairs[i].0] == written[i]
    }

    #[inline(always)]
    fn iter_mut(&'a mut self) -> (it: Self::IterMut) {
        let it = btree_map_iter_mut(self);
        proof {
            if Self::obeys_model() {
                let r = it.remaining();
                let pairs = Seq::new(r.len(), |i: int| (*r[i].0, *r[i].1));
                let before = old(self)@;
                assert(pairs.map_values(|kv: (K, V)| kv.0) =~= Seq::new(
                    r.len(),
                    |i: int| *r[i].0,
                ));
                assert forall|p: (K, V)| pairs.to_set().contains(p) <==> before.kv_pairs().contains(
                    p,
                ) by {
                    if pairs.to_set().contains(p) {
                        let i = choose|i: int| 0 <= i < pairs.len() && pairs[i] == p;
                        assert(before.contains_key(*r[i].0));
                    }
                    if before.kv_pairs().contains(p) {
                        let i = choose|i: int| 0 <= i < r.len() && *(#[trigger] r[i]).0 == p.0;
                        assert(pairs[i] == p);
                    }
                }
            }
        }
        it
    }
}

/// The entry of a key that a `BTreeMap` holds.
pub struct BTreeMapOccupied<'a, K, V> {
    map: &'a mut BTreeMap<K, V>,
    key: K,
}

/// The entry of a key that a `BTreeMap` does not hold.
pub struct BTreeMapVacant<'a, K, V> {
    map: &'a mut BTreeMap<K, V>,
    key: K,
}

impl<'a, K: Ord, V> OccupiedEntry<'a> for BTreeMapOccupied<'a, K, V> {
    type K = K;

    type V = V;

    type Target = BTreeMap<K, V>;

    closed spec fn inv(self) -> bool {
        key_obeys_cmp_spec::<K>() && self.map@.contains_key(self.key)
    }

    closed spec fn target(self) -> &'a mut BTreeMap<K, V> {
        self.map
    }

    closed spec fn spec_key(self) -> K {
        self.key
    }

    proof fn lemma_occupied(self) {
    }

    proof fn lemma_resolved(self) {
        assert(has_resolved(self) ==> has_resolved(self.map));
    }

    #[inline(always)]
    fn key(&self) -> (k: &K) {
        btree_map_get_key_value(self.map, &self.key).unwrap().0
    }

    #[inline(always)]
    fn remove_entry(self) -> (kv: (K, V)) {
        btree_map_remove_entry(self.map, &self.key).unwrap()
    }

    #[inline(always)]
    fn get(&self) -> (v: &V) {
        self.map.get(&self.key).unwrap()
    }

    #[inline(always)]
    fn get_mut(&mut self) -> (v: &mut V) {
        btree_map_get_mut(self.map, &self.key).unwrap()
    }

    #[inline(always)]
    fn into_mut(self) -> (v: &'a mut V) {
        btree_map_get_mut(self.map, &self.key).unwrap()
    }

    #[inline(always)]
    fn insert(&mut self, value: V) -> (old_value: V) {
        let mut value = value;
        core::mem::swap(btree_map_get_mut(self.map, &self.key).unwrap(), &mut value);
        value
    }

    #[inline(always)]
    fn remove(self) -> (v: V) {
        self.map.remove(&self.key).unwrap()
    }
}

impl<'a, K: Ord, V> VacantEntry<'a> for BTreeMapVacant<'a, K, V> {
    type K = K;

    type V = V;

    type Target = BTreeMap<K, V>;

    closed spec fn inv(self) -> bool {
        key_obeys_cmp_spec::<K>() && !self.map@.contains_key(self.key)
    }

    closed spec fn target(self) -> &'a mut BTreeMap<K, V> {
        self.map
    }

    closed spec fn spec_key(self) -> K {
        self.key
    }

    proof fn lemma_vacant(self) {
    }

    proof fn lemma_resolved(self) {
        assert(has_resolved(self) ==> has_resolved(self.map));
    }

    #[inline(always)]
    fn insert(self, value: V) -> (v: &'a mut V) {
        btree_map_entry_or_insert(self.map, self.key, value)
    }
}

impl<'a, K: Ord, V> KeyVacantEntry<'a> for BTreeMapVacant<'a, K, V> {
    #[inline(always)]
    fn key(&self) -> (k: &K) {
        &self.key
    }

    #[inline(always)]
    fn into_key(self) -> (k: K) {
        self.key
    }
}

impl<'a, K: Ord + 'a, V: 'a> EntryApi<'a> for BTreeMap<K, V> {
    type Occ = BTreeMapOccupied<'a, K, V>;

    type Vac = BTreeMapVacant<'a, K, V>;

    #[inline(always)]
    fn entry(&'a mut self, key: K) -> (e: Entry<Self::Occ, Self::Vac>) {
        if self.contains_key(&key) {
            Entry::Occupied(BTreeMapOccupied { map: self, key })
        } else {
            Entry::Vacant(BTreeMapVacant { map: self, key })
        }
    }
}

/// What was inserted through a vacant entry is what `get` then finds under the key: `after` is
/// the map that the entry leaves where `value` is the last that was written through the
/// reference that `insert` gave.
pub proof fn lemma_vacant_insert_then_get<K: Ord, V>(
    before: BTreeMap<K, V>,
    after: BTreeMap<K, V>,
    key: K,
    value: V,
)
    requires
        !before@.contains_key(key),
        after@ == (Slot { map: before@, key }).stored(value),
    ensures
        after.spec_get(&key) == Some(value),
        forall|other: K| other != key ==> #[trigger] after.spec_get(&other) == before.spec_get(&other),
{
}

/// Once an occupied entry was removed, the map no longer contains its key: `after` is the map
/// that `remove_entry` leaves.
pub proof fn lemma_remove_entry_then_contains<K: Ord, V>(
    before: BTreeMap<K, V>,
    after: BTreeMap<K, V>,
    key: K,
)
    requires
        before@.contains_key(key),
        after@ == (Slot { map: before@, key }).removed(),
    ensures
        after.spec_get(&key) is None,
        forall|other: K| other != key ==> #[trigger] after.spec_get(&other) == before.spec_get(&other),
{
}

} // verus!
