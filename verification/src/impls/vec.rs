//! The operations of `Vec`, over its view as a sequence.
use crate::Capacity;
use crate::Clear;
use crate::Collection;
use crate::CollectionMut;
use crate::CollectionRef;
use crate::Get;
use crate::GetMut;
use crate::Iter;
use crate::IterMut;
use crate::Len;
use crate::PopBack;
use crate::PushBack;
use crate::Remove;
use crate::Reserve;
use crate::SimpleCollectionMut;
use crate::SimpleCollectionRef;
use crate::WithCapacity;
use vstd::prelude::*;
use vstd::std_specs::iter::IteratorSpec;

verus! {

/// `Vec::capacity`: the total number of elements that the vector can hold without reallocating.
/// The vector holds its elements, so the number is no less than its length; no more is claimed
/// of it.
#[verifier::external_body]
fn vec_capacity<T>(vec: &Vec<T>) -> (capacity: usize)
    ensures
        vec@.len() <= capacity,
{
    vec.capacity()
}

/// `std::slice::IterMut`, the iterator that `<[T]>::iter_mut` gives. Nothing is known of what
/// is inside it.
#[verifier::external_type_specification]
#[verifier::external_body]
#[verifier::reject_recursive_types(T)]
pub struct ExSliceIterMut<'a, T: 'a>(std::slice::IterMut<'a, T>);

/// `<[T]>::iter_mut`: an iterator that hands out a mutable reference to each element of the
/// slice, from the first to the last, and then ends. What is written through a reference
/// becomes that element, and the slice keeps its length.
#[verifier::external_body]
fn slice_iter_mut<'a, T>(slice: &'a mut [T]) -> (it: std::slice::IterMut<'a, T>)
    ensures
        it.obeys_prophetic_iter_laws(),
        it.remaining().len() == old(slice)@.len(),
        final(slice)@.len() == old(slice)@.len(),
        forall|i: int|
            0 <= i < old(slice)@.len() ==> *(#[trigger] it.remaining()[i]) == old(slice)@[i]
                && final(slice)@[i] == *final(it.remaining()[i]),
{
    slice.iter_mut()
}

impl<T> Collection for Vec<T> {
    type Item = T;

    open spec fn obeys_model() -> bool {
        true
    }
}

impl<T> CollectionRef for Vec<T> {
    fn upcast_item_ref<'short, 'long: 'short>(r: &'long T) -> (s: &'short T) where Self: 'long {
        r
    }
}

impl<T> CollectionMut for Vec<T> {
    fn upcast_item_mut<'short, 'long: 'short>(r: &'long mut T) -> (s: &'short mut T) where
        Self: 'long,
    {
        r
    }
}

impl<T> SimpleCollectionRef for Vec<T> {
    fn into_ref<'r>(r: &'r T) -> (s: &'r T) where Self: 'r {
        r
    }
}

impl<T> SimpleCollectionMut for Vec<T> {
    fn into_mut<'r>(r: &'r mut T) -> (s: &'r mut T) where Self: 'r {
        r
    }
}

impl<T> WithCapacity for Vec<T> {
    open spec fn spec_new(&self) -> bool {
        self@ == Seq::<T>::empty()
    }

    #[inline(always)]
    fn with_capacity(capacity: usize) -> (c: Self) {
        Vec::with_capacity(capacity)
    }
}

impl<T> Len for Vec<T> {
    open spec fn spec_len(&self) -> nat {
        self@.len()
    }

    #[inline(always)]
    fn len(&self) -> (n: usize) {
        self.len()
    }

    #[inline(always)]
    fn is_empty(&self) -> (b: bool) {
        self.is_empty()
    }
}

impl<T> Get<usize> for Vec<T> {
    open spec fn spec_get(&self, index: usize) -> Option<T> {
        if index < self@.len() {
            Some(self@[index as int])
        } else {
            None
        }
    }

    #[inline(always)]
    fn get(&self, index: usize) -> (r: Option<&T>) {
        self.as_slice().get(index)
    }
}

impl<T> GetMut<usize> for Vec<T> {
    open spec fn spec_set(&self, index: usize, item: T, after: &Self) -> bool {
        after@ == self@.update(index as int, item)
    }

    #[inline(always)]
    fn get_mut(&mut self, index: usize) -> (r: Option<&mut T>) {
        if index < self.len() {
            Some(&mut self[index])
        } else {
            None
        }
    }
}

impl<T> Capacity for Vec<T> {
    /// The capacity has room for the elements that the vector holds.
    open spec fn spec_capacity(&self, capacity: usize) -> bool {
        self@.len() <= capacity
    }

    #[inline(always)]
    fn capacity(&self) -> (capacity: usize) {
        vec_capacity(self)
    }
}

impl<T> Reserve for Vec<T> {
    open spec fn spec_reserve(&self, after: &Self) -> bool {
        after@ == self@
    }

    #[inline(always)]
    fn reserve(&mut self, additional: usize) {
        self.reserve(additional)
    }
}

impl<T> PushBack for Vec<T> {
    type Output = ();

    open spec fn spec_push_back(&self, element: T, after: &Self, output: ()) -> bool {
        after@ == self@.push(element)
    }

    #[inline(always)]
    fn push_back(&mut self, t: T) {
        self.push(t)
    }
}

impl<T> PopBack for Vec<T> {
    open spec fn spec_pop_back(&self, after: &Self, output: Option<T>) -> bool {
        if self@.len() == 0 {
            output is None && after@ == self@
        } else {
            output == Some(self@.last()) && after@ == self@.drop_last()
        }
    }

    #[inline(always)]
    fn pop_back(&mut self) -> (output: Option<T>) {
        self.pop()
    }
}

impl<T> Remove<usize> for Vec<T> {
    open spec fn spec_remove(&self, index: usize, after: &Self, output: Option<T>) -> bool {
        if index < self@.len() {
            output == Some(self@[index as int]) && after@ == self@.remove(index as int)
        } else {
            output is None && after@ == self@
        }
    }

    #[inline(always)]
    fn remove(&mut self, index: usize) -> (output: Option<T>) {
        if index < self.len() {
            Some(self.remove(index))
        } else {
            None
        }
    }
}

impl<T> Clear for Vec<T> {
    open spec fn spec_clear(&self) -> bool {
        self@ == Seq::<T>::empty()
    }

    #[inline(always)]
    fn clear(&mut self) {
        self.clear()
    }
}

impl<'a, T: 'a> Iter<'a> for Vec<T> {
    type Iter = std::slice::Iter<'a, T>;

    /// The items come from the first to the last.
    open spec fn spec_iter(&self, items: Seq<T>) -> bool {
        items == self@
    }

    #[inline(always)]
    fn iter(&'a self) -> (it: Self::Iter) {
        let it = self.as_slice().iter();
        assert(it.remaining().unref() =~= self@);
        it
    }
}

impl<'a, T: 'a> IterMut<'a> for Vec<T> {
    type IterMut = std::slice::IterMut<'a, T>;

    /// The items come from the first to the last.
    open spec fn spec_iter_mut(&self, items: Seq<T>, written: Seq<T>, after: &Self) -> bool {
        items =~= self@ && after@ =~= written
    }

    #[inline(always)]
    fn iter_mut(&'a mut self) -> (it: Self::IterMut) {
        slice_iter_mut(self.as_mut_slice())
    }
}

} // verus!
