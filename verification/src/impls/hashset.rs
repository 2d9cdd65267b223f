//! The operations of `HashSet`, over its view as a set.
use crate::Clear;
use crate::Collection;
use crate::CollectionMut;
use crate::CollectionRef;
use crate::Get;
use crate::Insert;
use crate::Iter;
use crate::Len;
use crate::Remove;
use crate::SimpleCollectionMut;
use crate::SimpleCollectionRef;
use std::collections::HashSet;
use std::hash::Hash;
use vstd::prelude::*;
use vstd::std_specs::hash::obeys_key_model;
use vstd::std_specs::iter::IteratorSpec;

verus! {

/// `HashSet::take`: removes and returns the value in the set, if any, that is equal to the
/// given one. Where the set holds no such value, the set is left as it was.
#[verifier::external_body]
fn hash_set_take<T: Hash + Eq>(set: &mut HashSet<T>, value: &T) -> (r: Option<T>)
    ensures
        obeys_key_model::<T>() ==> match r {
            Some(taken) => old(set)@.contains(*value) && taken == *value
                && final(set)@ == old(set)@.remove(*value),
            None => !old(set)@.contains(*value) && final(set)@ == old(set)@,
        },
{
    set.take(value)
}

impl<T> Collection for HashSet<T> {
    type Item = T;

    open spec fn obeys_model() -> bool {
        obeys_key_model::<T>()
    }
}

impl<T> CollectionRef for HashSet<T> {
    fn upcast_item_ref<'short, 'long: 'short>(r: &'long T) -> (s: &'short T) where Self: 'long {
        r
    }
}

impl<T> CollectionMut for HashSet<T> {
    fn upcast_item_mut<'short, 'long: 'short>(r: &'long mut T) -> (s: &'short mut T) where
        Self: 'long,
    {
        r
    }
}

impl<T> SimpleCollectionRef for HashSet<T> {
    fn into_ref<'r>(r: &'r T) -> (s: &'r T) where Self: 'r {
        r
    }
}

impl<T> SimpleCollectionMut for HashSet<T> {
    fn into_mut<'r>(r: &'r mut T) -> (s: &'r mut T) where Self: 'r {
        r
    }
}

impl<T> Len for HashSet<T> {
    open spec fn spec_len(&self) -> nat {
        self@.len()
    }

    #[inline(always)]
    fn len(&self) -> (n: usize) {
        self.len()
    }

    #[inline(always)]
    fn is_empty(&self) -> (b: bool) {
        proof {
            let items = vstd::std_specs::hash::spec_hash_keys_iter(self).remaining().unref();
            assert(items.to_set() == (*self)@);
            vstd::seq_lib::seq_to_set_is_finite(items);
            if (*self)@.len() == 0 {
                (*self)@.lemma_len0_is_empty();
            }
        }
        self.is_empty()
    }
}

impl<'a, T: Hash + Eq> Get<&'a T> for HashSet<T> {
    open spec fn spec_get(&self, value: &'a T) -> Option<T> {
        if self@.contains(*value) {
            Some(*value)
        } else {
            None
        }
    }

    #[inline(always)]
    fn get(&self, value: &'a T) -> (r: Option<&T>) {
        assert(Self::obeys_model() ==> obeys_key_model::<T>());
        self.get(value)
    }
}

impl<T: Hash + Eq> Insert for HashSet<T> {
    type Output = bool;

    open spec fn spec_insert(&self, element: T, after: &Self, output: bool) -> bool {
        after@ == self@.insert(element) && output == !self@.contains(element)
    }

    #[inline(always)]
    fn insert(&mut self, t: T) -> (output: bool) {
        self.insert(t)
    }
}

impl<'a, T: Hash + Eq> Remove<&'a T> for HashSet<T> {
    open spec fn spec_remove(&self, t: &'a T, after: &Self, output: Option<T>) -> bool {
        &&& after@ == self@.remove(*t)
        &&& output == if self@.contains(*t) {
            Some(*t)
        } else {
            None
        }
    }

    #[inline(always)]
    fn remove(&mut self, t: &'a T) -> (output: Option<T>) {
        let output = hash_set_take(self, t);
        assert(Self::obeys_model() ==> self@ =~= old(self)@.remove(*t));
        output
    }
}

impl<T> Clear for HashSet<T> {
    open spec fn spec_clear(&self) -> bool {
        self@ == Set::<T>::empty()
    }

    #[inline(always)]
    fn clear(&mut self) {
        self.clear()
    }
}

impl<'a, T: 'a> Iter<'a> for HashSet<T> {
    type Iter = std::collections::hash_set::Iter<'a, T>;

    /// Each item of the set comes once, in no stated order.
    open spec fn spec_iter(&self, items: Seq<T>) -> bool {
        items.no_duplicates() && items.to_set() == self@
    }

    #[inline(always)]
    fn iter(&'a self) -> (it: Self::Iter) {
        let it = self.iter();
        proof {
            let r = it.remaining();
            assert forall|i: int, j: int|
                Self::obeys_model() && 0 <= i < j < r.unref().len() implies r.unref()[i]
                != r.unref()[j] by {
                assert(r[i] != r[j]);
            }
        }
        it
    }
}

} // verus!
