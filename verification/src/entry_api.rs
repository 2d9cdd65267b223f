//! The entry of a map: a handle on one key, occupied or vacant, and what can be done through it.
use crate::Collection;
use crate::Keyed;
use vstd::prelude::*;

verus! {

/// One key of a map as an entry sees it: the contents of the map and the key that was looked up.
#[verifier::reject_recursive_types(K)]
pub struct Slot<K, V> {
    pub map: Map<K, V>,
    pub key: K,
}

impl<K, V> Slot<K, V> {
    /// The key maps to a value.
    pub open spec fn occupied(self) -> bool {
        self.map.contains_key(self.key)
    }

    /// The value that the key maps to, if any.
    pub open spec fn value(self) -> Option<V> {
        if self.occupied() {
            Some(self.map[self.key])
        } else {
            None
        }
    }

    /// The value behind the key once a default has been supplied for a vacant slot.
    pub open spec fn value_or(self, default: V) -> V {
        match self.value() {
            Some(v) => v,
            None => default,
        }
    }

    /// The map once the slot holds `value`.
    pub open spec fn stored(self, value: V) -> Map<K, V> {
        self.map.insert(self.key, value)
    }

    /// The map once the slot is empty.
    pub open spec fn removed(self) -> Map<K, V> {
        self.map.remove(self.key)
    }

    /// The same key in another map.
    pub open spec fn in_map(self, map: Map<K, V>) -> Slot<K, V> {
        Slot { map, key: self.key }
    }

    /// A value that was stored in the slot is the value that a later look at the slot finds, and
    /// no other key of the map is touched by storing it.
    pub proof fn lemma_stored_then_found(self, value: V)
        ensures
            self.in_map(self.stored(value)).value() == Some(value),
            forall|other: K|
                other != self.key ==> (#[trigger] self.stored(value).contains_key(other)
                    <==> self.map.contains_key(other)),
            forall|other: K|
                other != self.key && self.map.contains_key(other) ==> #[trigger] self.stored(
                    value,
                )[other] == self.map[other],
    {
    }

    /// Once the slot was removed, the map no longer holds the key, and no other key of the map
    /// is touched by removing it.
    pub proof fn lemma_removed_then_vacant(self)
        ensures
            !self.in_map(self.removed()).occupied(),
            forall|other: K|
                other != self.key ==> (#[trigger] self.removed().contains_key(other)
                    <==> self.map.contains_key(other)),
            forall|other: K|
                other != self.key && self.map.contains_key(other) ==> #[trigger] self.removed()[other]
                    == self.map[other],
    {
    }

    /// Supplying a default for an occupied slot changes nothing: the value that comes out is the
    /// value that the key maps to, whatever the default, and storing it leaves the map as it is.
    pub proof fn lemma_default_unused(self, default: V)
        requires
            self.occupied(),
        ensures
            Some(self.value_or(default)) == self.value(),
            self.stored(self.value_or(default)) == self.map,
    {
        assert(self.stored(self.value_or(default)) =~= self.map);
    }

    /// Supplying a default twice in a row for a key that the map does not hold inserts the
    /// first default, once: the second look finds the slot occupied, hands out the first
    /// default whatever the second is, and leaves the map as the first insertion made it.
    pub proof fn lemma_default_twice(self, first: V, second: V)
        requires
            !self.occupied(),
        ensures
            ({
                let once = self.in_map(self.stored(self.value_or(first)));
                &&& once.occupied()
                &&& once.map.dom() == self.map.dom().insert(self.key)
                &&& once.value_or(second) == first
                &&& once.stored(once.value_or(second)) == once.map
            }),
    {
        let once = self.in_map(self.stored(self.value_or(first)));
        once.lemma_default_unused(second);
    }
}

/// A view into an occupied entry.
/// It is part of the [`Entry`] enum.
pub trait OccupiedEntry<'a>: Sized {
    type K;

    type V;

    /// The map that the entry borrows.
    type Target: View<V = Map<Self::K, Self::V>>;

    /// The entry is well formed: it stands for a key that its map holds.
    spec fn inv(self) -> bool;

    /// The borrow of the map that the entry holds.
    spec fn target(self) -> &'a mut Self::Target;

    /// The key of the entry.
    spec fn spec_key(self) -> Self::K;

    /// A well-formed occupied entry stands for a key that maps to a value.
    proof fn lemma_occupied(self)
        requires
            self.inv(),
        ensures
            self.target()@.contains_key(self.spec_key()),
    ;

    /// An entry that is no longer used leaves the map as it is.
    proof fn lemma_resolved(self)
        requires
            self.inv(),
            has_resolved(self),
        ensures
            *final(self.target()) == *self.target(),
    ;

    /// Gets a reference to the key in the entry.
    fn key(&self) -> (k: &Self::K)
        requires
            self.inv(),
        ensures
            *k == self.spec_key(),
    ;

    /// Take the ownership of the key and value from the map.
    fn remove_entry(self) -> (kv: (Self::K, Self::V))
        requires
            self.inv(),
        ensures
            kv.0 == self.spec_key(),
            kv.1 == self.target()@[self.spec_key()],
            final(self.target())@ == self.target()@.remove(self.spec_key()),
    ;

    /// Gets a reference to the value in the entry.
    fn get(&self) -> (v: &Self::V)
        requires
            self.inv(),
        ensures
            *v == self.target()@[self.spec_key()],
    ;

    /// Gets a mutable reference to the value in the entry.
    ///
    /// If you need a reference to the `OccupiedEntry` which may outlive the
    /// destruction of the `Entry` value, see [`into_mut`].
    ///
    /// [`into_mut`]: Self::into_mut
    fn get_mut(&mut self) -> (v: &mut Self::V)
        requires
            old(self).inv(),
        ensures
            *v == old(self).target()@[old(self).spec_key()],
            final(self).inv(),
            final(self).spec_key() == old(self).spec_key(),
            final(self).target()@ == old(self).target()@.insert(old(self).spec_key(), *final(v)),
            *final(final(self).target()) == *final(old(self).target()),
    ;

    /// Converts the `OccupiedEntry` into a mutable reference to the value in the entry
    /// with a lifetime bound to the map itself.
    ///
    /// If you need multiple references to the `OccupiedEntry`, see [`get_mut`].
    ///
    /// [`get_mut`]: Self::get_mut
    fn into_mut(self) -> (v: &'a mut Self::V)
        requires
            self.inv(),
        ensures
            *v == self.target()@[self.spec_key()],
            final(self.target())@ == self.target()@.insert(self.spec_key(), *final(v)),
    ;

    /// Sets the value of the entry, and returns the entry's old value.
    fn insert(&mut self, value: Self::V) -> (old_value: Self::V)
        requires
            old(self).inv(),
        ensures
            old_value == old(self).target()@[old(self).spec_key()],
            final(self).inv(),
            final(self).spec_key() == old(self).spec_key(),
            final(self).target()@ == old(self).target()@.insert(old(self).spec_key(), value),
            *final(final(self).target()) == *final(old(self).target()),
    ;

    /// Takes the value out of the entry, and returns it.
    fn remove(self) -> (v: Self::V)
        requires
            self.inv(),
        ensures
            v == self.target()@[self.spec_key()],
            final(self.target())@ == self.target()@.remove(self.spec_key()),
    {
        self.remove_entry().1
    }
}

/// A view into a vacant entry.
/// It is part of the [`Entry`] enum.
/// See also [`KeyVacantEntry`] for entries that own their key.
pub trait VacantEntry<'a>: Sized {
    type K;

    type V;

    /// The map that the entry borrows.
    type Target: View<V = Map<Self::K, Self::V>>;

    /// The entry is well formed: it stands for a key that its map does not hold.
    spec fn inv(self) -> bool;

    /// The borrow of the map that the entry holds.
    spec fn target(self) -> &'a mut Self::Target;

    /// The key that a value would be inserted under.
    spec fn spec_key(self) -> Self::K;

    /// A well-formed vacant entry stands for a key that maps to nothing.
    proof fn lemma_vacant(self)
        requires
            self.inv(),
        ensures
            !self.target()@.contains_key(self.spec_key()),
    ;

    /// An entry that is no longer used leaves the map as it is.
    proof fn lemma_resolved(self)
        requires
            self.inv(),
            has_resolved(self),
        ensures
            *final(self.target()) == *self.target(),
    ;

    /// Sets the value of the entry with the `VacantEntry`'s key,
    /// and returns a mutable reference to it.
    fn insert(self, value: Self::V) -> (v: &'a mut Self::V)
        requires
            self.inv(),
        ensures
            *v == value,
            final(self.target())@ == self.target()@.insert(self.spec_key(), *final(v)),
    ;
}

/// A vacant entry that hands out its key before anything is inserted.
pub trait KeyVacantEntry<'a>: VacantEntry<'a> {
    /// Gets a reference to the key that would be used when inserting a value
    /// through the `VacantEntry`.
    fn key(&self) -> (k: &Self::K)
        requires
            self.inv(),
        ensures
            *k == self.spec_key(),
    ;

    /// Take ownership of the key. The map stays as it was.
    fn into_key(self) -> (k: Self::K)
        requires
            self.inv(),
        ensures
            k == self.spec_key(),
            *final(self.target()) == *self.target(),
    ;
}

/// A view into a single entry in a map, which may either be vacant or occupied.
///
/// This enum is constructed from the `entry` method on [`EntryApi`] implementors.
pub enum Entry<Occ, Vac> {
    /// An occupied entry.
    Occupied(Occ),
    /// A vacant entry.
    Vacant(Vac),
}

impl<'a, Occ, Vac> Entry<Occ, Vac> where
    Occ: OccupiedEntry<'a>,
    Vac: VacantEntry<'a, K = Occ::K, V = Occ::V, Target = Occ::Target>,
 {
    /// The entry is well formed.
    pub open spec fn inv(self) -> bool {
        match self {
            Entry::Occupied(entry) => entry.inv(),
            Entry::Vacant(entry) => entry.inv(),
        }
    }

    /// The borrow of the map that the entry holds.
    pub open spec fn target(self) -> &'a mut Occ::Target {
        match self {
            Entry::Occupied(entry) => entry.target(),
            Entry::Vacant(entry) => entry.target(),
        }
    }

    /// The key of the entry.
    pub open spec fn spec_key(self) -> Occ::K {
        match self {
            Entry::Occupied(entry) => entry.spec_key(),
            Entry::Vacant(entry) => entry.spec_key(),
        }
    }

    /// The key of the entry in the current contents of its map.
    pub open spec fn slot(self) -> Slot<Occ::K, Occ::V> {
        Slot { map: self.target()@, key: self.spec_key() }
    }

    /// A well-formed entry is occupied exactly when its map holds its key.
    pub proof fn lemma_variant(self)
        requires
            self.inv(),
        ensures
            self is Occupied <==> self.slot().occupied(),
    {
        match self {
            Entry::Occupied(entry) => entry.lemma_occupied(),
            Entry::Vacant(entry) => entry.lemma_vacant(),
        }
    }

    /// An entry that is no longer used leaves the map as it is.
    pub proof fn lemma_resolved(self)
        requires
            self.inv(),
            has_resolved(self),
        ensures
            *final(self.target()) == *self.target(),
    {
        match self {
            Entry::Occupied(entry) => entry.lemma_resolved(),
            Entry::Vacant(entry) => entry.lemma_resolved(),
        }
    }

    /// Modifying in place and then supplying a default: where the map holds the key, the value
    /// that comes out is what `f` made of the value that the key mapped to, and the default is
    /// not used; where it does not, the value that comes out is the default, and nothing is
    /// asked of `f`. Either way the map ends as the map that the entry was taken from, with
    /// what is last written through the reference stored under the key.
    ///
    /// `modified` stands for what `and_modify(f)` gives on `self`; `got` for the value behind
    /// the reference that `or_insert(default)` gives on `modified`, `last` for the value that
    /// is behind that reference in the end, and `end` for the map in the end.
    pub proof fn lemma_and_modify_or_insert<F: FnOnce(&mut Occ::V)>(
        self,
        f: F,
        default: Occ::V,
        modified: Self,
        got: Occ::V,
        last: Occ::V,
        end: Map<Occ::K, Occ::V>,
    )
        requires
            self.inv(),
            modified.inv(),
            modified.spec_key() == self.spec_key(),
            self is Vacant ==> modified == self,
            self is Occupied ==> modified is Occupied && exists|r: &mut Occ::V|
                Some(*r) == self.slot().value() && #[trigger] call_ensures(f, (r,), ())
                    && modified.target()@ == self.slot().stored(*final(r)),
            got == modified.slot().value_or(default),
            end == modified.slot().stored(last),
        ensures
            self is Vacant ==> got == default,
            self is Occupied ==> exists|r: &mut Occ::V|
                Some(*r) == self.slot().value() && #[trigger] call_ensures(f, (r,), ()) && got
                    == *final(r),
            end == self.slot().stored(last),
    {
        self.lemma_variant();
        modified.lemma_variant();
        if self is Occupied {
            let r = choose|r: &mut Occ::V|
                Some(*r) == self.slot().value() && #[trigger] call_ensures(f, (r,), ())
                    && modified.target()@ == self.slot().stored(*final(r));
            assert(got == *final(r));
            assert(modified.slot().stored(last) =~= self.slot().stored(last));
        }
    }

    /// Ensures a value is in the entry by inserting the default if empty, and returns
    /// a mutable reference to the value in the entry.
    #[inline]
    pub fn or_insert(self, default: Occ::V) -> (value: &'a mut Occ::V)
        requires
            self.inv(),
        ensures
            *value == self.slot().value_or(default),
            final(self.target())@ == self.slot().stored(*final(value)),
    {
        proof {
            self.lemma_variant();
        }
        match self {
            Entry::Occupied(entry) => entry.into_mut(),
            Entry::Vacant(entry) => entry.insert(default),
        }
    }

    /// Ensures a value is in the entry by inserting the result of the default function if empty,
    /// and returns a mutable reference to the value in the entry.
    ///
    /// The function is called for a vacant entry only: nothing is asked of it, nor said of it,
    /// where the entry is occupied.
    #[inline]
    pub fn or_insert_with<F: FnOnce() -> Occ::V>(self, default: F) -> (value: &'a mut Occ::V)
        requires
            self.inv(),
            self is Vacant ==> call_requires(default, ()),
        ensures
            match self.slot().value() {
                Some(v) => *value == v,
                None => call_ensures(default, (), *value),
            },
            final(self.target())@ == self.slot().stored(*final(value)),
    {
        proof {
            self.lemma_variant();
        }
        match self {
            Entry::Occupied(entry) => entry.into_mut(),
            Entry::Vacant(entry) => entry.insert(default()),
        }
    }

    /// Provides in-place mutable access to an occupied entry before any
    /// potential inserts into the map.
    ///
    /// The function is called for an occupied entry only, on the value that the key maps to.
    #[inline]
    pub fn and_modify<F>(self, f: F) -> (out: Self) where F: FnOnce(&mut Occ::V)
        requires
            self.inv(),
            forall|r: &mut Occ::V|
                self is Occupied && Some(*r) == self.slot().value() ==> #[trigger] call_requires(
                    f,
                    (r,),
                ),
        ensures
            out.inv(),
            out.spec_key() == self.spec_key(),
            *final(out.target()) == *final(self.target()),
            self is Vacant ==> out == self,
            self is Occupied ==> out is Occupied && exists|r: &mut Occ::V|
                Some(*r) == self.slot().value() && #[trigger] call_ensures(f, (r,), ())
                    && out.target()@ == self.slot().stored(*final(r)),
    {
        proof {
            self.lemma_variant();
        }
        match self {
            Entry::Occupied(mut entry) => {
                f(entry.get_mut());
                Entry::Occupied(entry)
            },
            Entry::Vacant(entry) => Entry::Vacant(entry),
        }
    }
}

impl<'a, Occ, Vac> Entry<Occ, Vac> where
    Occ: OccupiedEntry<'a>,
    Vac: KeyVacantEntry<'a, K = Occ::K, V = Occ::V, Target = Occ::Target>,
 {
    /// Returns a reference to this entry's key.
    #[inline]
    pub fn key(&self) -> (k: &Occ::K)
        requires
            self.inv(),
        ensures
            *k == self.spec_key(),
    {
        match *self {
            Entry::Occupied(ref entry) => entry.key(),
            Entry::Vacant(ref entry) => entry.key(),
        }
    }

    /// Ensures a value is in the entry by inserting, if empty, the result of the default function.
    /// This method allows for generating key-derived values for insertion by providing the default
    /// function a reference to the key that was moved during the `.entry(key)` method call.
    ///
    /// The reference to the moved key is provided so that cloning or copying the key is
    /// unnecessary, unlike with `.or_insert_with(|| ... )`.
    #[inline]
    pub fn or_insert_with_key<F: FnOnce(&Occ::K) -> Occ::V>(self, default: F) -> (value:
        &'a mut Occ::V)
        requires
            self.inv(),
            self is Vacant ==> call_requires(default, (&self.spec_key(),)),
        ensures
            match self.slot().value() {
                Some(v) => *value == v,
                None => call_ensures(default, (&self.spec_key(),), *value),
            },
            final(self.target())@ == self.slot().stored(*final(value)),
    {
        proof {
            self.lemma_variant();
        }
        match self {
            Entry::Occupied(entry) => entry.into_mut(),
            Entry::Vacant(entry) => {
                let value = default(entry.key());
                entry.insert(value)
            },
        }
    }
}

impl<'a, Occ, Vac> Entry<Occ, Vac> where
    Occ: OccupiedEntry<'a>,
    Vac: VacantEntry<'a, K = Occ::K, V = Occ::V, Target = Occ::Target>,
    Occ::V: Default,
 {
    /// Ensures a value is in the entry by inserting the default value if empty,
    /// and returns a mutable reference to the value in the entry.
    #[inline]
    pub fn or_default(self) -> (value: &'a mut Occ::V)
        requires
            self.inv(),
        ensures
            match self.slot().value() {
                Some(v) => *value == v,
                None => call_ensures(<Occ::V as Default>::default, (), *value),
            },
            final(self.target())@ == self.slot().stored(*final(value)),
    {
        proof {
            self.lemma_variant();
        }
        match self {
            Entry::Occupied(entry) => entry.into_mut(),
            Entry::Vacant(entry) => entry.insert(Default::default()),
        }
    }
}

/// An occupied entry under another name: it does what the entry that it wraps does.
pub struct RefOccupiedEntry<Occ>(pub Occ);

impl<'a, Occ: OccupiedEntry<'a>> OccupiedEntry<'a> for RefOccupiedEntry<Occ> {
    type K = Occ::K;

    type V = Occ::V;

    type Target = Occ::Target;

    open spec fn inv(self) -> bool {
        self.0.inv()
    }

    open spec fn target(self) -> &'a mut Occ::Target {
        self.0.target()
    }

    open spec fn spec_key(self) -> Occ::K {
        self.0.spec_key()
    }

    proof fn lemma_occupied(self) {
        self.0.lemma_occupied();
    }

    proof fn lemma_resolved(self) {
        assert(has_resolved(self) ==> has_resolved(self.0));
        self.0.lemma_resolved();
    }

    fn key(&self) -> (k: &Self::K) {
        self.0.key()
    }

    fn remove_entry(self) -> (kv: (Self::K, Self::V)) {
        self.0.remove_entry()
    }

    fn get(&self) -> (v: &Self::V) {
        self.0.get()
    }

    fn get_mut(&mut self) -> (v: &mut Self::V) {
        self.0.get_mut()
    }

    fn into_mut(self) -> (v: &'a mut Self::V) {
        self.0.into_mut()
    }

    fn insert(&mut self, value: Self::V) -> (old_value: Self::V) {
        self.0.insert(value)
    }

    fn remove(self) -> (v: Self::V) {
        self.0.remove()
    }
}

/// A map with an entry for each key.
pub trait EntryApi<'a>: Keyed + View<
    V = Map<<Self as Keyed>::Key, <Self as Collection>::Item>,
> {
    /// The occupied entries of the map.
    type Occ: OccupiedEntry<'a, K = Self::Key, V = Self::Item, Target = Self>;

    /// The vacant entries of the map.
    type Vac: VacantEntry<'a, K = Self::Key, V = Self::Item, Target = Self>;

    /// Gets the given key's corresponding entry in the map for in-place manipulation.
    ///
    /// Nothing is inserted: the entry is occupied where the map holds the key, vacant where it
    /// does not, and the map becomes what is done through the entry.
    fn entry(&'a mut self, key: Self::Key) -> (e: Entry<Self::Occ, Self::Vac>)
        ensures
            Self::obeys_model() ==> {
                &&& e.inv()
                &&& e is Occupied <==> old(self)@.contains_key(key)
                &&& e.spec_key() == key
                &&& *e.target() == *old(self)
                &&& *final(e.target()) == *final(self)
            },
    ;
}

} // verus!
