//! Traits that describe the operations of collections (vectors, deques, maps, sets), each with a
//! contract, so that code can be written and verified against "any collection that supports
//! this operation" without relying on the collection behind it.
//!
//! Each operation is specified by a spec function of the same trait, which the collection
//! defines over its own model: `spec_get` says what `get` returns, `spec_insert` relates the
//! collection before an `insert` to the collection after it and to what `insert` returns.
//! The collections of the standard library define them over their views: a `Vec` or a
//! `VecDeque` is a sequence, a `HashMap` or a `BTreeMap` a map, a `HashSet` or a `BTreeSet` a
//! set.
//!
//! Items and keys are handed out as plain references. Where a trait names a type that borrows
//! from the collection (an iterator, an entry), the trait takes the lifetime of the borrow as a
//! parameter.
//!
//! The maps of the standard library are looked up by a reference to a key of the map's own key
//! type.
use vstd::prelude::*;
use vstd::std_specs::iter::IteratorSpec;

pub mod entry_api;
pub mod impls;
mod non_alias;

pub use entry_api::Entry;
pub use entry_api::EntryApi;
pub use entry_api::KeyVacantEntry;
pub use entry_api::OccupiedEntry;
pub use entry_api::VacantEntry;
pub use non_alias::AnyMap;
pub use non_alias::AnySet;
pub use non_alias::CapacityMut;
pub use non_alias::Deque;
pub use non_alias::DequeMut;
pub use non_alias::MapMut;
pub use non_alias::SetMut;
pub use non_alias::Slab;
pub use non_alias::SlabMut;
pub use non_alias::Stack;
pub use non_alias::StackMut;
pub use non_alias::Vec;
pub use non_alias::VecDeque;
pub use non_alias::VecDequeMut;
pub use non_alias::VecMut;

verus! {

/// Abstract collection.
pub trait Collection: Sized {
    /// Type of the items of the collection.
    type Item;

    /// Whether values of this type behave as their model says. It holds of every sequence; of a
    /// hash map it says that the keys hash and compare as the model of a map needs. What the
    /// operations of a collection promise, they promise of the types of which this holds.
    spec fn obeys_model() -> bool;
}

/// Abstract collection that can be immutably referenced.
pub trait CollectionRef: Collection {
    /// Changes an item reference into a shorter lived reference.
    fn upcast_item_ref<'short, 'long: 'short>(r: &'long Self::Item) -> (s: &'short Self::Item)
        where Self: 'long
        ensures
            s == r,
    ;
}

/// Collection where each item reference can be converted into a standard
/// "simple" rust reference.
pub trait SimpleCollectionRef: CollectionRef {
    /// Hands the reference on as it is.
    fn into_ref<'r>(r: &'r Self::Item) -> (s: &'r Self::Item) where Self: 'r
        ensures
            s == r,
    ;
}

/// Abstract collection that can be mutably referenced.
pub trait CollectionMut: Collection {
    /// Changes an item mutable reference into a shorter lived mutable reference.
    ///
    /// What is written through the shorter borrow is written through the longer one.
    fn upcast_item_mut<'short, 'long: 'short>(r: &'long mut Self::Item) -> (s: &'short mut Self::Item)
        where Self: 'long
        ensures
            *s == *old(r),
            *final(r) == *final(s),
    ;
}

/// Collection where each mutable item reference can be converted into a standard
/// "simple" rust mutable reference.
pub trait SimpleCollectionMut: CollectionMut {
    /// Hands the reference on as it is: what is written through the one is written through
    /// the other.
    fn into_mut<'r>(r: &'r mut Self::Item) -> (s: &'r mut Self::Item) where Self: 'r
        ensures
            *s == *old(r),
            *final(r) == *final(s),
    ;
}

/// Abstract keyed collection.
pub trait Keyed: Collection {
    /// Type of the keys indexing each item of the collection.
    type Key;
}

/// Abstract keyed collection whose key can be referenced.
pub trait KeyedRef: Keyed {
    /// Changes a key reference into a shorter lived reference.
    fn upcast_key_ref<'short, 'long: 'short>(r: &'long Self::Key) -> (s: &'short Self::Key)
        where Self: 'long
        ensures
            s == r,
    ;
}

/// Collection that can be created with a minimum given capacity.
pub trait WithCapacity: Sized {
    /// The collection holds no item.
    spec fn spec_new(&self) -> bool;

    /// Creates a new instance of `Self` with the given minimum capacity.
    fn with_capacity(capacity: usize) -> (c: Self)
        ensures
            c.spec_new(),
    ;
}

/// Sized collection.
pub trait Len: Collection {
    /// The number of elements in the collection.
    spec fn spec_len(&self) -> nat;

    /// Returns the number of elements in the collection.
    fn len(&self) -> (n: usize)
        ensures
            Self::obeys_model() ==> n == self.spec_len(),
    ;

    /// Checks if the collection is empty.
    fn is_empty(&self) -> (b: bool)
        ensures
            Self::obeys_model() ==> (b <==> self.spec_len() == 0),
    {
        self.len() == 0
    }
}

/// Collection with known capacity.
pub trait Capacity {
    /// `capacity` is a capacity that the collection may have as it stands. Which one it has is
    /// for the allocator to say: this is what holds of it whatever the allocator gave.
    spec fn spec_capacity(&self, capacity: usize) -> bool;

    /// Returns the current capacity of the collection.
    ///
    /// This corresponds to the number of elements the collection can hold without reallocation.
    fn capacity(&self) -> (capacity: usize)
        ensures
            self.spec_capacity(capacity),
    ;
}

/// Collection that can extend their capacity.
pub trait Reserve {
    /// `after` holds what `self` holds.
    spec fn spec_reserve(&self, after: &Self) -> bool;

    /// Reserve enough memory for `additional` more elements.
    fn reserve(&mut self, additional: usize)
        ensures
            old(self).spec_reserve(final(self)),
    ;
}

/// Queryable collection.
pub trait Get<T>: CollectionRef {
    /// The item stored behind the given key (if any).
    spec fn spec_get(&self, key: T) -> Option<Self::Item>;

    /// Returns a reference to the item stored behind the given key (if any).
    fn get(&self, key: T) -> (r: Option<&Self::Item>)
        ensures
            Self::obeys_model() ==> match r {
                Some(item) => self.spec_get(key) == Some(*item),
                None => self.spec_get(key) is None,
            },
    ;

    /// Checks if the collection contains an item behind the given key.
    fn contains(&self, key: T) -> (b: bool)
        ensures
            Self::obeys_model() ==> (b <==> self.spec_get(key) is Some),
    {
        self.get(key).is_some()
    }
}

/// Mutably queryable collection.
pub trait GetMut<T>: Get<T> + CollectionMut {
    /// `after` is `self` with `item` in place of the item stored behind `key`.
    spec fn spec_set(&self, key: T, item: Self::Item, after: &Self) -> bool;

    /// Returns a mutable reference to the item stored behind the given key (if any).
    ///
    /// What is written through the reference is written into the collection.
    fn get_mut(&mut self, key: T) -> (r: Option<&mut Self::Item>)
        ensures
            Self::obeys_model() ==> match r {
                Some(item) => old(self).spec_get(key) == Some(*item) && old(self).spec_set(
                    key,
                    *final(item),
                    final(self),
                ),
                None => old(self).spec_get(key) is None && *final(self) == *old(self),
            },
    ;
}

/// Queryable map.
pub trait GetKeyValue<T>: CollectionRef + KeyedRef {
    /// The key-value pair matching the given `key` (if any).
    spec fn spec_get_key_value(&self, key: T) -> Option<(Self::Key, Self::Item)>;

    /// Returns the key-value pair matching the given `key`.
    fn get_key_value(&self, key: T) -> (r: Option<(&Self::Key, &Self::Item)>)
        ensures
            Self::obeys_model() ==> match r {
                Some((k, item)) => self.spec_get_key_value(key) == Some((*k, *item)),
                None => self.spec_get_key_value(key) is None,
            },
    ;
}

/// Mutably queryable map.
pub trait GetKeyValueMut<T>: CollectionMut + KeyedRef {
    /// The key-value pair matching the given `key` (if any).
    spec fn spec_get_key_value_mut(&self, key: T) -> Option<(Self::Key, Self::Item)>;

    /// `after` is `self` with `item` in place of the item stored behind `key`.
    spec fn spec_set_value(&self, key: T, item: Self::Item, after: &Self) -> bool;

    /// Returns the key-value pair matching the given `key`, with a mutable reference to the value.
    ///
    /// What is written through the reference is written into the collection.
    fn get_key_value_mut(&mut self, key: T) -> (r: Option<(&Self::Key, &mut Self::Item)>)
        ensures
            Self::obeys_model() ==> match r {
                Some((k, item)) => old(self).spec_get_key_value_mut(key) == Some((*k, *item))
                    && old(self).spec_set_value(key, *final(item), final(self)),
                None => old(self).spec_get_key_value_mut(key) is None && *final(self) == *old(self),
            },
    ;
}

/// Collection exposing a reference to its front element.
pub trait Front: CollectionRef {
    /// The front element of the collection (if any).
    spec fn spec_front(&self) -> Option<Self::Item>;

    /// Get a reference to the front element of the collection.
    fn front(&self) -> (r: Option<&Self::Item>)
        ensures
            Self::obeys_model() ==> match r {
                Some(item) => self.spec_front() == Some(*item),
                None => self.spec_front() is None,
            },
    ;
}

impl<T: Get<usize> + Len> Front for T {
    open spec fn spec_front(&self) -> Option<Self::Item> {
        if self.spec_len() == 0 {
            None
        } else {
            self.spec_get(0)
        }
    }

    fn front(&self) -> (r: Option<&Self::Item>) {
        match self.len() {
            0 => None,
            _ => self.get(0),
        }
    }
}

/// Collection exposing a reference to its back element.
pub trait Back: CollectionRef {
    /// The back element of the collection (if any).
    spec fn spec_back(&self) -> Option<Self::Item>;

    /// Get a reference to the back element of the collection.
    fn back(&self) -> (r: Option<&Self::Item>)
        ensures
            Self::obeys_model() ==> match r {
                Some(item) => self.spec_back() == Some(*item),
                None => self.spec_back() is None,
            },
    ;
}

impl<T: Get<usize> + Len> Back for T {
    open spec fn spec_back(&self) -> Option<Self::Item> {
        if self.spec_len() == 0 {
            None
        } else {
            self.spec_get((self.spec_len() - 1) as usize)
        }
    }

    fn back(&self) -> (r: Option<&Self::Item>) {
        match self.len() {
            0 => None,
            l => self.get(l - 1),
        }
    }
}

/// Collection exposing a mutable reference to its front element.
pub trait FrontMut: CollectionMut {
    /// The front element of the collection (if any).
    spec fn spec_front_mut(&self) -> Option<Self::Item>;

    /// `after` is `self` with `item` in place of the front element.
    spec fn spec_set_front(&self, item: Self::Item, after: &Self) -> bool;

    /// Get a mutable reference to the front element of the collection.
    ///
    /// What is written through the reference is written into the collection.
    fn front_mut(&mut self) -> (r: Option<&mut Self::Item>)
        ensures
            Self::obeys_model() ==> match r {
                Some(item) => old(self).spec_front_mut() == Some(*item) && old(self).spec_set_front(
                    *final(item),
                    final(self),
                ),
                None => old(self).spec_front_mut() is None && *final(self) == *old(self),
            },
    ;
}

impl<T: GetMut<usize> + Len> FrontMut for T {
    open spec fn spec_front_mut(&self) -> Option<Self::Item> {
        if self.spec_len() == 0 {
            None
        } else {
            self.spec_get(0)
        }
    }

    open spec fn spec_set_front(&self, item: Self::Item, after: &Self) -> bool {
        self.spec_set(0, item, after)
    }

    fn front_mut(&mut self) -> (r: Option<&mut Self::Item>) {
        match self.len() {
            0 => None,
            _ => self.get_mut(0),
        }
    }
}

/// Collection exposing a mutable reference to its back element.
pub trait BackMut: CollectionMut {
    /// The back element of the collection (if any).
    spec fn spec_back_mut(&self) -> Option<Self::Item>;

    /// `after` is `self` with `item` in place of the back element.
    spec fn spec_set_back(&self, item: Self::Item, after: &Self) -> bool;

    /// Get a mutable reference to the back element of the collection.
    ///
    /// What is written through the reference is written into the collection.
    fn back_mut(&mut self) -> (r: Option<&mut Self::Item>)
        ensures
            Self::obeys_model() ==> match r {
                Some(item) => old(self).spec_back_mut() == Some(*item) && old(self).spec_set_back(
                    *final(item),
                    final(self),
                ),
                None => old(self).spec_back_mut() is None && *final(self) == *old(self),
            },
    ;
}

impl<T: GetMut<usize> + Len> BackMut for T {
    open spec fn spec_back_mut(&self) -> Option<Self::Item> {
        if self.spec_len() == 0 {
            None
        } else {
            self.spec_get((self.spec_len() - 1) as usize)
        }
    }

    open spec fn spec_set_back(&self, item: Self::Item, after: &Self) -> bool {
        self.spec_set((self.spec_len() - 1) as usize, item, after)
    }

    fn back_mut(&mut self) -> (r: Option<&mut Self::Item>) {
        match self.len() {
            0 => None,
            l => self.get_mut(l - 1),
        }
    }
}

/// Mutable collection where new elements can be inserted.
pub trait Insert: Collection {
    /// The output of the insertion function.
    type Output;

    /// Inserting `element` into `self` gives `after`, and the function gives `output`.
    spec fn spec_insert(&self, element: Self::Item, after: &Self, output: Self::Output) -> bool;

    /// Insert a new element in the collection.
    fn insert(&mut self, element: Self::Item) -> (output: Self::Output)
        ensures
            Self::obeys_model() ==> old(self).spec_insert(element, final(self), output),
    ;
}

/// Mutable map where new key-value pairs can be inserted.
pub trait MapInsert<K>: Collection {
    /// The output of the insertion function.
    type Output;

    /// Inserting `value` under `key` into `self` gives `after`, and the function gives `output`.
    spec fn spec_map_insert(&self, key: K, value: Self::Item, after: &Self, output: Self::Output) -> bool;

    /// Insert a new key-value pair in the collection.
    fn insert(&mut self, key: K, value: Self::Item) -> (output: Self::Output)
        ensures
            Self::obeys_model() ==> old(self).spec_map_insert(key, value, final(self), output),
    ;
}

/// Mutable collection where new elements can be pushed on the front.
pub trait PushFront: Collection {
    /// The output of the push function.
    type Output;

    /// Pushing `element` on the front of `self` gives `after`, and the function gives `output`.
    spec fn spec_push_front(&self, element: Self::Item, after: &Self, output: Self::Output) -> bool;

    /// Push a new element on the front of the collection.
    fn push_front(&mut self, element: Self::Item) -> (output: Self::Output)
        ensures
            Self::obeys_model() ==> old(self).spec_push_front(element, final(self), output),
    ;
}

/// Mutable collection where new elements can be pushed on the back.
pub trait PushBack: Collection {
    /// The output of the push function.
    type Output;

    /// Pushing `element` on the back of `self` gives `after`, and the function gives `output`.
    spec fn spec_push_back(&self, element: Self::Item, after: &Self, output: Self::Output) -> bool;

    /// Push a new element on the back of the collection.
    fn push_back(&mut self, element: Self::Item) -> (output: Self::Output)
        ensures
            Self::obeys_model() ==> old(self).spec_push_back(element, final(self), output),
    ;
}

/// Mutable collection where elements can be removed from.
pub trait Remove<T>: Collection {
    /// Removing the element behind `key` from `self` gives `after`, and the function gives
    /// `output`.
    spec fn spec_remove(&self, key: T, after: &Self, output: Option<Self::Item>) -> bool;

    /// Remove the element identified by the given `key`.
    fn remove(&mut self, key: T) -> (output: Option<Self::Item>)
        ensures
            Self::obeys_model() ==> old(self).spec_remove(key, final(self), output),
    ;
}

/// Mutable collection where elements can be popped from the front.
pub trait PopFront: Collection {
    /// Popping the front of `self` gives `after`, and the function gives `output`.
    spec fn spec_pop_front(&self, after: &Self, output: Option<Self::Item>) -> bool;

    /// Remove the front element of the collection and return it (if any).
    fn pop_front(&mut self) -> (output: Option<Self::Item>)
        ensures
            Self::obeys_model() ==> old(self).spec_pop_front(final(self), output),
    ;
}

/// Mutable collection where elements can be popped from the back.
pub trait PopBack: Collection {
    /// Popping the back of `self` gives `after`, and the function gives `output`.
    spec fn spec_pop_back(&self, after: &Self, output: Option<Self::Item>) -> bool;

    /// Remove the back element of the collection and return it (if any).
    fn pop_back(&mut self) -> (output: Option<Self::Item>)
        ensures
            Self::obeys_model() ==> old(self).spec_pop_back(final(self), output),
    ;
}

/// Clearable collection.
pub trait Clear {
    /// The collection holds no element.
    spec fn spec_clear(&self) -> bool;

    /// Remove all the elements of the collection.
    fn clear(&mut self)
        ensures
            final(self).spec_clear(),
    ;
}

/// Iterable collection.
pub trait Iter<'a>: CollectionRef where Self: 'a, Self::Item: 'a {
    /// Iterator type.
    type Iter: Iterator<Item = &'a Self::Item>;

    /// `items` is what an iterator over the collection hands out, in an order in which it may
    /// do so.
    spec fn spec_iter(&self, items: Seq<Self::Item>) -> bool;

    /// Create an iterator over the items of the collection.
    fn iter(&'a self) -> (it: Self::Iter)
        ensures
            Self::obeys_model() ==> {
                &&& it.obeys_prophetic_iter_laws()
                &&& self.spec_iter(it.remaining().unref())
            },
    ;
}

/// Mutably iterable collection.
pub trait IterMut<'a>: CollectionMut where Self: 'a, Self::Item: 'a {
    /// Iterator type.
    type IterMut: Iterator<Item = &'a mut Self::Item>;

    /// `items` is what an iterator over the collection hands out, in an order in which it may
    /// do so, and `after` is the collection once each item has become the item of `written` at
    /// the same place.
    spec fn spec_iter_mut(
        &self,
        items: Seq<Self::Item>,
        written: Seq<Self::Item>,
        after: &Self,
    ) -> bool;

    /// Create an iterator over the mutable items of the collection.
    ///
    /// What is written through the references that the iterator hands out is written into the
    /// collection.
    fn iter_mut(&'a mut self) -> (it: Self::IterMut)
        ensures
            Self::obeys_model() ==> {
                &&& it.obeys_prophetic_iter_laws()
                &&& old(self).spec_iter_mut(
                    Seq::new(it.remaining().len(), |i: int| *it.remaining()[i]),
                    Seq::new(it.remaining().len(), |i: int| *final(it.remaining()[i])),
                    final(self),
                )
            },
    ;
}

/// Iterable map.
pub trait MapIter<'a>: KeyedRef + CollectionRef where Self: 'a, Self::Key: 'a, Self::Item: 'a {
    /// Iterator type.
    type Iter: Iterator<Item = (&'a Self::Key, &'a Self::Item)>;

    /// `pairs` is what an iterator over the map hands out, in an order in which it may do so.
    spec fn spec_map_iter(&self, pairs: Seq<(Self::Key, Self::Item)>) -> bool;

    /// Create an iterator over the key-value pairs of the map.
    fn iter(&'a self) -> (it: Self::Iter)
        ensures
            Self::obeys_model() ==> {
                &&& it.obeys_prophetic_iter_laws()
                &&& self.spec_map_iter(it.remaining().unref())
            },
    ;
}

/// Mutably iterable map.
pub trait MapIterMut<'a>: KeyedRef + CollectionMut where Self: 'a, Self::Key: 'a, Self::Item: 'a {
    /// Iterator type.
    type IterMut: Iterator<Item = (&'a Self::Key, &'a mut Self::Item)>;

    /// `pairs` is what an iterator over the map hands out, in an order in which it may do so,
    /// and `after` is the map once the value of each pair has become the item of `written` at
    /// the same place.
    spec fn spec_map_iter_mut(
        &self,
        pairs: Seq<(Self::Key, Self::Item)>,
        written: Seq<Self::Item>,
        after: &Self,
    ) -> bool;

    /// Create an iterator over the key-value pairs of the map, with mutable values.
    ///
    /// What is written through the references that the iterator hands out is written into the
    /// map.
    fn iter_mut(&'a mut self) -> (it: Self::IterMut)
        ensures
            Self::obeys_model() ==> {
                &&& it.obeys_prophetic_iter_laws()
                &&& old(self).spec_map_iter_mut(
                    Seq::new(it.remaining().len(), |i: int| (*it.remaining()[i].0, *it.remaining()[i].1)),
                    Seq::new(it.remaining().len(), |i: int| *final(it.remaining()[i].1)),
                    final(self),
                )
            },
    ;
}

} // verus!
