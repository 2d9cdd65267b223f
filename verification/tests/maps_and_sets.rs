use cc_traits::AnyMap;
use cc_traits::AnySet;
use cc_traits::Capacity;
use cc_traits::Clear;
use cc_traits::CollectionMut;
use cc_traits::CollectionRef;
use cc_traits::Get;
use cc_traits::GetKeyValue;
use cc_traits::GetMut;
use cc_traits::Insert;
use cc_traits::Iter;
use cc_traits::KeyedRef;
use cc_traits::Len;
use cc_traits::MapInsert;
use cc_traits::MapIter;
use cc_traits::MapIterMut;
use cc_traits::MapMut;
use cc_traits::Remove;
use cc_traits::Reserve;
use cc_traits::SetMut;
use cc_traits::SimpleCollectionMut;
use cc_traits::SimpleCollectionRef;
use cc_traits::WithCapacity;
use std::collections::BTreeMap;
use std::collections::BTreeSet;
use std::collections::HashMap;
use std::collections::HashSet;

fn sample_hash_map() -> HashMap<u32, &'static str> {
    let mut m = HashMap::new();
    m.insert(1, "one");
    m.insert(2, "two");
    m.insert(3, "three");
    m
}

fn sample_btree_map() -> BTreeMap<u32, &'static str> {
    let mut m = BTreeMap::new();
    m.insert(2, "two");
    m.insert(3, "three");
    m.insert(1, "one");
    m
}

#[test]
fn hash_map_with_capacity_is_empty() {
    let m: HashMap<u32, u32> = WithCapacity::with_capacity(10);
    assert_eq!(Len::len(&m), 0);
    assert!(Len::is_empty(&m));
    assert!(Capacity::capacity(&m) >= 10);
}

#[test]
fn hash_map_len_and_is_empty() {
    let m = sample_hash_map();
    assert_eq!(Len::len(&m), 3);
    assert!(!Len::is_empty(&m));
}

#[test]
fn hash_map_get_and_contains() {
    let m = sample_hash_map();
    assert_eq!(Get::get(&m, &1), Some(&"one"));
    assert_eq!(Get::get(&m, &4), None);
    assert!(Get::contains(&m, &3));
    assert!(!Get::contains(&m, &0));
}

#[test]
fn hash_map_get_mut_writes_into_the_map() {
    let mut m = sample_hash_map();
    if let Some(v) = GetMut::get_mut(&mut m, &2) {
        assert_eq!(*v, "two");
        *v = "deux";
    } else {
        panic!("the map holds the key");
    }
    assert_eq!(m[&2], "deux");
    assert_eq!(m[&1], "one");
    assert_eq!(m.len(), 3);
    assert!(GetMut::get_mut(&mut m, &9).is_none());
    assert_eq!(m.len(), 3);
}

#[test]
fn hash_map_get_key_value() {
    let m = sample_hash_map();
    assert_eq!(GetKeyValue::get_key_value(&m, &2), Some((&2, &"two")));
    assert_eq!(GetKeyValue::get_key_value(&m, &7), None);
}

#[test]
fn hash_map_insert_gives_the_value_that_was_there() {
    let mut m = sample_hash_map();
    assert_eq!(MapInsert::insert(&mut m, 4, "four"), None);
    assert_eq!(MapInsert::insert(&mut m, 4, "quatre"), Some("four"));
    assert_eq!(m[&4], "quatre");
    assert_eq!(m.len(), 4);
}

#[test]
fn hash_map_remove_gives_the_value_that_was_there() {
    let mut m = sample_hash_map();
    assert_eq!(Remove::remove(&mut m, &2), Some("two"));
    assert_eq!(Remove::remove(&mut m, &2), None);
    assert_eq!(m.len(), 2);
    assert!(!m.contains_key(&2));
}

#[test]
fn hash_map_reserve_and_clear() {
    let mut m = sample_hash_map();
    Reserve::reserve(&mut m, 100);
    assert_eq!(m, sample_hash_map());
    assert!(Capacity::capacity(&m) >= 103);
    Clear::clear(&mut m);
    assert!(m.is_empty());
}

#[test]
fn hash_map_iter_hands_out_each_value_once() {
    let m = sample_hash_map();
    let mut values: Vec<&str> = Iter::iter(&m).copied().collect();
    values.sort();
    assert_eq!(values, vec!["one", "three", "two"]);
}

#[test]
fn hash_map_map_iter_hands_out_each_pair_once() {
    let m = sample_hash_map();
    let mut pairs: Vec<(u32, &str)> = MapIter::iter(&m).map(|(k, v)| (*k, *v)).collect();
    pairs.sort();
    assert_eq!(pairs, vec![(1, "one"), (2, "two"), (3, "three")]);
}

#[test]
fn hash_map_iter_mut_writes_into_the_map() {
    let mut m: HashMap<u32, u32> = HashMap::new();
    m.insert(1, 10);
    m.insert(2, 20);
    let mut keys = Vec::new();
    for (k, v) in MapIterMut::iter_mut(&mut m) {
        keys.push(*k);
        *v += *k;
    }
    keys.sort();
    assert_eq!(keys, vec![1, 2]);
    assert_eq!(m[&1], 11);
    assert_eq!(m[&2], 22);
    assert_eq!(m.len(), 2);
}

#[test]
fn map_references_are_handed_on_as_they_are() {
    let x = 5;
    assert_eq!(<HashMap<u8, i32> as CollectionRef>::upcast_item_ref(&x), &5);
    assert_eq!(<HashMap<u8, i32> as SimpleCollectionRef>::into_ref(&x), &5);
    assert_eq!(<HashMap<i32, u8> as KeyedRef>::upcast_key_ref(&x), &5);
    assert_eq!(<BTreeMap<u8, i32> as CollectionRef>::upcast_item_ref(&x), &5);
    assert_eq!(<BTreeMap<u8, i32> as SimpleCollectionRef>::into_ref(&x), &5);
    assert_eq!(<BTreeMap<i32, u8> as KeyedRef>::upcast_key_ref(&x), &5);
    assert_eq!(<HashSet<i32> as CollectionRef>::upcast_item_ref(&x), &5);
    assert_eq!(<HashSet<i32> as SimpleCollectionRef>::into_ref(&x), &5);
    assert_eq!(<BTreeSet<i32> as CollectionRef>::upcast_item_ref(&x), &5);
    assert_eq!(<BTreeSet<i32> as SimpleCollectionRef>::into_ref(&x), &5);
    let mut y = 0;
    *<HashMap<u8, i32> as CollectionMut>::upcast_item_mut(&mut y) += 1;
    *<HashMap<u8, i32> as SimpleCollectionMut>::into_mut(&mut y) += 1;
    *<BTreeMap<u8, i32> as CollectionMut>::upcast_item_mut(&mut y) += 1;
    *<BTreeMap<u8, i32> as SimpleCollectionMut>::into_mut(&mut y) += 1;
    *<HashSet<i32> as CollectionMut>::upcast_item_mut(&mut y) += 1;
    *<HashSet<i32> as SimpleCollectionMut>::into_mut(&mut y) += 1;
    *<BTreeSet<i32> as CollectionMut>::upcast_item_mut(&mut y) += 1;
    *<BTreeSet<i32> as SimpleCollectionMut>::into_mut(&mut y) += 1;
    assert_eq!(y, 8);
}

#[test]
fn btree_map_len_and_is_empty() {
    let m = sample_btree_map();
    assert_eq!(Len::len(&m), 3);
    assert!(!Len::is_empty(&m));
    let e: BTreeMap<u8, u8> = BTreeMap::new();
    assert_eq!(Len::len(&e), 0);
    assert!(Len::is_empty(&e));
}

#[test]
fn btree_map_get_and_contains() {
    let m = sample_btree_map();
    assert_eq!(Get::get(&m, &1), Some(&"one"));
    assert_eq!(Get::get(&m, &4), None);
    assert!(Get::contains(&m, &3));
    assert!(!Get::contains(&m, &0));
}

#[test]
fn btree_map_get_mut_writes_into_the_map() {
    let mut m = sample_btree_map();
    if let Some(v) = GetMut::get_mut(&mut m, &2) {
        assert_eq!(*v, "two");
        *v = "deux";
    } else {
        panic!("the map holds the key");
    }
    assert_eq!(m[&2], "deux");
    assert_eq!(m[&1], "one");
    assert!(GetMut::get_mut(&mut m, &9).is_none());
    assert_eq!(m.len(), 3);
}

#[test]
fn btree_map_get_key_value() {
    let m = sample_btree_map();
    assert_eq!(GetKeyValue::get_key_value(&m, &2), Some((&2, &"two")));
    assert_eq!(GetKeyValue::get_key_value(&m, &7), None);
}

#[test]
fn btree_map_insert_remove_and_clear() {
    let mut m = sample_btree_map();
    assert_eq!(MapInsert::insert(&mut m, 4, "four"), None);
    assert_eq!(MapInsert::insert(&mut m, 4, "quatre"), Some("four"));
    assert_eq!(Remove::remove(&mut m, &2), Some("two"));
    assert_eq!(Remove::remove(&mut m, &2), None);
    assert_eq!(m.len(), 3);
    Clear::clear(&mut m);
    assert!(m.is_empty());
}

#[test]
fn btree_map_iterates_in_the_order_of_its_keys() {
    let m = sample_btree_map();
    let values: Vec<&str> = Iter::iter(&m).copied().collect();
    assert_eq!(values, vec!["one", "two", "three"]);
    let pairs: Vec<(u32, &str)> = MapIter::iter(&m).map(|(k, v)| (*k, *v)).collect();
    assert_eq!(pairs, vec![(1, "one"), (2, "two"), (3, "three")]);
}

#[test]
fn btree_map_iter_mut_writes_into_the_map() {
    let mut m: BTreeMap<u32, u32> = BTreeMap::new();
    m.insert(2, 20);
    m.insert(1, 10);
    let mut keys = Vec::new();
    for (k, v) in MapIterMut::iter_mut(&mut m) {
        keys.push(*k);
        *v += *k;
    }
    assert_eq!(keys, vec![1, 2]);
    assert_eq!(m[&1], 11);
    assert_eq!(m[&2], 22);
    assert_eq!(m.len(), 2);
}

#[test]
fn hash_set_operations() {
    let mut s: HashSet<u32> = HashSet::new();
    assert!(Len::is_empty(&s));
    assert_eq!(Insert::insert(&mut s, 1), true);
    assert_eq!(Insert::insert(&mut s, 2), true);
    assert_eq!(Insert::insert(&mut s, 1), false);
    assert_eq!(Len::len(&s), 2);
    assert!(!Len::is_empty(&s));
    assert_eq!(Get::get(&s, &1), Some(&1));
    assert_eq!(Get::get(&s, &3), None);
    assert!(Get::contains(&s, &2));
    let mut items: Vec<u32> = Iter::iter(&s).copied().collect();
    items.sort();
    assert_eq!(items, vec![1, 2]);
    assert_eq!(Remove::remove(&mut s, &1), Some(1));
    assert_eq!(Remove::remove(&mut s, &1), None);
    assert_eq!(Len::len(&s), 1);
    assert!(s.contains(&2));
    Clear::clear(&mut s);
    assert!(s.is_empty());
}

#[test]
fn btree_set_operations() {
    let mut s: BTreeSet<u32> = BTreeSet::new();
    assert!(Len::is_empty(&s));
    assert_eq!(Insert::insert(&mut s, 2), true);
    assert_eq!(Insert::insert(&mut s, 1), true);
    assert_eq!(Insert::insert(&mut s, 1), false);
    assert_eq!(Len::len(&s), 2);
    assert!(!Len::is_empty(&s));
    assert_eq!(Get::get(&s, &1), Some(&1));
    assert_eq!(Get::get(&s, &3), None);
    assert!(Get::contains(&s, &2));
    let items: Vec<u32> = Iter::iter(&s).copied().collect();
    assert_eq!(items, vec![1, 2]);
    assert_eq!(Remove::remove(&mut s, &1), Some(1));
    assert_eq!(Remove::remove(&mut s, &1), None);
    assert_eq!(Len::len(&s), 1);
    assert!(s.contains(&2));
    Clear::clear(&mut s);
    assert!(s.is_empty());
}

fn count_of<M: AnyMap<u32, &'static str>>(m: &M, key: u32) -> (usize, Option<&'static str>) {
    (m.len(), m.get(&key).copied())
}

fn replace_in<M: MapMut<u32, &'static str>>(m: &mut M) -> Option<&'static str> {
    m.remove(&1);
    m.insert(3, "drei")
}

fn has<S: AnySet<u32>>(s: &S, x: u32) -> bool {
    s.contains(&x)
}

fn toggle<S: SetMut<u32>>(s: &mut S, x: u32) {
    if s.remove(&x).is_none() {
        s.insert(x);
    }
}

#[test]
fn the_named_sets_of_operations_hold_of_maps_and_sets() {
    let mut h = sample_hash_map();
    assert_eq!(count_of(&h, 2), (3, Some("two")));
    assert_eq!(replace_in(&mut h), Some("three"));
    assert_eq!(count_of(&h, 1), (2, None));
    assert_eq!(count_of(&h, 3), (2, Some("drei")));

    let mut b = sample_btree_map();
    assert_eq!(count_of(&b, 2), (3, Some("two")));
    assert_eq!(replace_in(&mut b), Some("three"));
    assert_eq!(count_of(&b, 3), (2, Some("drei")));

    let mut s: HashSet<u32> = HashSet::new();
    toggle(&mut s, 1);
    assert!(has(&s, 1));
    toggle(&mut s, 1);
    assert!(!has(&s, 1));

    let mut t: BTreeSet<u32> = BTreeSet::new();
    toggle(&mut t, 1);
    assert!(has(&t, 1));
    toggle(&mut t, 1);
    assert!(!has(&t, 1));
}
