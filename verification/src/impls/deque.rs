//! The operations of `VecDeque`, over its view as a sequence: the front is the first item.
use crate::Back;
use crate::BackMut;
use crate::Capacity;
use crate::Clear;
use crate::Collection;
use crate::CollectionMut;
use crate::CollectionRef;
use crate::Front;
use crate::FrontMut;
use crate::Len;
use crate::PopBack;
use crate::PopFront;
use crate::PushBack;
use crate::PushFront;
use crate::Reserve;
use crate::SimpleCollectionMut;
use crate::SimpleCollectionRef;
use crate::WithCapacity;
use std::collections::VecDeque;
use vstd::prelude::*;

verus! {

/// `VecDeque::capacity`: the number of elements that the deque can hold without reallocating.
/// The deque holds its elements, so the number is no less than its length; no more is claimed
/// of it.
#[verifier::external_body]
fn vec_deque_capacity<T>(deque: &VecDeque<T>) -> (capacity: usize)
    ensures
        deque@.len() <= capacity,
{
    deque.capacity()
}

/// `VecDeque::get_mut`: a mutable reference to the element at `index`, where index 0 is the
/// front, if there is one. What is written through the reference becomes that element, and
/// nothing else in the deque changes. Where the index is out of bounds, the deque is left as it
/// was.
#[verifier::external_body]
fn vec_deque_get_mut<T>(deque: &mut VecDeque<T>, index: usize) -> (r: Option<&mut T>)
    ensures
        match r {
            Some(item) => index < old(deque)@.len() && *item == old(deque)@[index as int]
                && final(deque)@ == old(deque)@.update(index as int, *final(item)),
            None => index >= old(deque)@.len() && *final(deque) == *old(deque),
        },
{
    deque.get_mut(index)
}

impl<T> Collection for VecDeque<T> {
    type Item = T;

    open spec fn obeys_model() -> bool {
        true
    }
}

impl<T> CollectionRef for VecDeque<T> {
    fn upcast_item_ref<'short, 'long: 'short>(r: &'long T) -> (s: &'short T) where Self: 'long {
        r
    }
}

impl<T> CollectionMut for VecDeque<T> {
    fn upcast_item_mut<'short, 'long: 'short>(r: &'long mut T) -> (s: &'short mut T) where
        Self: 'long,
    {
        r
    }
}

impl<T> SimpleCollectionRef for VecDeque<T> {
    fn into_ref<'a>(r: &'a T) -> (s: &'a T) where Self: 'a {
        r
    }
}

impl<T> SimpleCollectionMut for VecDeque<T> {
    fn into_mut<'a>(r: &'a mut T) -> (s: &'a mut T) where Self: 'a {
        r
    }
}

impl<T> WithCapacity for VecDeque<T> {
    open spec fn spec_new(&self) -> bool {
        self@ == Seq::<T>::empty()
    }

    fn with_capacity(capacity: usize) -> (c: Self) {
        VecDeque::with_capacity(capacity)
    }
}

impl<T> Len for VecDeque<T> {
    open spec fn spec_len(&self) -> nat {
        self@.len()
    }

    fn len(&self) -> (n: usize) {
        self.len()
    }

    fn is_empty(&self) -> (b: bool) {
        self.len() == 0
    }
}

impl<T> Capacity for VecDeque<T> {
    /// The capacity has room for the elements that the deque holds.
    open spec fn spec_capacity(&self, capacity: usize) -> bool {
        self@.len() <= capacity
    }

    fn capacity(&self) -> (capacity: usize) {
        vec_deque_capacity(self)
    }
}

impl<T> Reserve for VecDeque<T> {
    open spec fn spec_reserve(&self, after: &Self) -> bool {
        after@ == self@
    }

    fn reserve(&mut self, additional: usize) {
        self.reserve(additional)
    }
}

impl<T> Front for VecDeque<T> {
    open spec fn spec_front(&self) -> Option<T> {
        if self@.len() == 0 {
            None
        } else {
            Some(self@.first())
        }
    }

    fn front(&self) -> (r: Option<&T>) {
        if self.len() == 0 {
            None
        } else {
            Some(&self[0])
        }
    }
}

impl<T> FrontMut for VecDeque<T> {
    open spec fn spec_front_mut(&self) -> Option<T> {
        if self@.len() == 0 {
            None
        } else {
            Some(self@.first())
        }
    }

    open spec fn spec_set_front(&self, item: T, after: &Self) -> bool {
        after@ == self@.update(0, item)
    }

    fn front_mut(&mut self) -> (r: Option<&mut T>) {
        vec_deque_get_mut(self, 0)
    }
}

impl<T> Back for VecDeque<T> {
    open spec fn spec_back(&self) -> Option<T> {
        if self@.len() == 0 {
            None
        } else {
            Some(self@.last())
        }
    }

    fn back(&self) -> (r: Option<&T>) {
        let n = self.len();
        if n == 0 {
            None
        } else {
            Some(&self[n - 1])
        }
    }
}

impl<T> BackMut for VecDeque<T> {
    open spec fn spec_back_mut(&self) -> Option<T> {
        if self@.len() == 0 {
            None
        } else {
            Some(self@.last())
        }
    }

    open spec fn spec_set_back(&self, item: T, after: &Self) -> bool {
        after@ == self@.update(self@.len() - 1, item)
    }

    fn back_mut(&mut self) -> (r: Option<&mut T>) {
        let n = self.len();
        if n == 0 {
            None
        } else {
            vec_deque_get_mut(self, n - 1)
        }
    }
}

impl<T> PushFront for VecDeque<T> {
    type Output = ();

    open spec fn spec_push_front(&self, element: T, after: &Self, output: ()) -> bool {
        after@ == seq![element] + self@
    }

    fn push_front(&mut self, t: T) {
        self.push_front(t)
    }
}

impl<T> PushBack for VecDeque<T> {
    type Output = ();

    open spec fn spec_push_back(&self, element: T, after: &Self, output: ()) -> bool {
        after@ == self@.push(element)
    }

    fn push_back(&mut self, t: T) {
        self.push_back(t)
    }
}

impl<T> PopFront for VecDeque<T> {
    open spec fn spec_pop_front(&self, after: &Self, output: Option<T>) -> bool {
        if self@.len() == 0 {
            output is None && after@ == self@
        } else {
            output == Some(self@.first()) && after@ == self@.drop_first()
        }
    }

    fn pop_front(&mut self) -> (output: Option<T>) {
        self.pop_front()
    }
}

impl<T> PopBack for VecDeque<T> {
    open spec fn spec_pop_back(&self, after: &Self, output: Option<T>) -> bool {
        if self@.len() == 0 {
            output is None && after@ == self@
        } else {
            output == Some(self@.last()) && after@ == self@.drop_last()
        }
    }

    fn pop_back(&mut self) -> (output: Option<T>) {
        self.pop_back()
    }
}

impl<T> Clear for VecDeque<T> {
    open spec fn spec_clear(&self) -> bool {
        self@ == Seq::<T>::empty()
    }

    fn clear(&mut self) {
        self.clear()
    }
}

} // verus!
