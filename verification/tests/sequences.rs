use cc_traits::Back;
use cc_traits::BackMut;
use cc_traits::Capacity;
use cc_traits::CapacityMut;
use cc_traits::Clear;
use cc_traits::CollectionMut;
use cc_traits::CollectionRef;
use cc_traits::Deque;
use cc_traits::DequeMut;
use cc_traits::Front;
use cc_traits::FrontMut;
use cc_traits::Get;
use cc_traits::GetMut;
use cc_traits::Iter;
use cc_traits::IterMut;
use cc_traits::Len;
use cc_traits::PopBack;
use cc_traits::PopFront;
use cc_traits::PushBack;
use cc_traits::PushFront;
use cc_traits::Remove;
use cc_traits::Reserve;
use cc_traits::SimpleCollectionMut;
use cc_traits::SimpleCollectionRef;
use cc_traits::Slab;
use cc_traits::Stack;
use cc_traits::StackMut;
use cc_traits::VecDequeMut;
use cc_traits::VecMut;
use cc_traits::WithCapacity;
use std::collections::VecDeque;

#[test]
fn vec_with_capacity_is_empty() {
    let v: Vec<i32> = WithCapacity::with_capacity(10);
    assert_eq!(Len::len(&v), 0);
    assert!(Len::is_empty(&v));
    assert!(Capacity::capacity(&v) >= 10);
}

#[test]
fn vec_len_and_is_empty() {
    let v = vec![1, 2, 3];
    assert_eq!(Len::len(&v), 3);
    assert!(!Len::is_empty(&v));
    let e: Vec<u8> = Vec::new();
    assert_eq!(Len::len(&e), 0);
    assert!(Len::is_empty(&e));
}

#[test]
fn vec_get_and_contains() {
    let v = vec![10, 20, 30];
    assert_eq!(Get::get(&v, 0), Some(&10));
    assert_eq!(Get::get(&v, 2), Some(&30));
    assert_eq!(Get::get(&v, 3), None);
    assert_eq!(Get::get(&v, usize::MAX), None);
    assert!(Get::contains(&v, 1));
    assert!(!Get::contains(&v, 3));
}

#[test]
fn vec_get_mut_writes_into_the_vector() {
    let mut v = vec![10, 20, 30];
    if let Some(x) = GetMut::get_mut(&mut v, 1) {
        assert_eq!(*x, 20);
        *x = 21;
    } else {
        panic!("index 1 is in bounds");
    }
    assert_eq!(v, vec![10, 21, 30]);
    assert!(GetMut::get_mut(&mut v, 3).is_none());
    assert_eq!(v, vec![10, 21, 30]);
}

#[test]
fn vec_reserve_keeps_the_items() {
    let mut v = vec![1, 2];
    Reserve::reserve(&mut v, 100);
    assert_eq!(v, vec![1, 2]);
    assert!(Capacity::capacity(&v) >= 102);
}

#[test]
fn vec_push_back_and_pop_back() {
    let mut v: Vec<i32> = Vec::new();
    PushBack::push_back(&mut v, 1);
    PushBack::push_back(&mut v, 2);
    assert_eq!(v, vec![1, 2]);
    assert_eq!(PopBack::pop_back(&mut v), Some(2));
    assert_eq!(v, vec![1]);
    assert_eq!(PopBack::pop_back(&mut v), Some(1));
    assert_eq!(PopBack::pop_back(&mut v), None);
    assert!(v.is_empty());
}

#[test]
fn vec_remove_by_index() {
    let mut v = vec![1, 2, 3];
    assert_eq!(Remove::remove(&mut v, 1), Some(2));
    assert_eq!(v, vec![1, 3]);
    assert_eq!(Remove::remove(&mut v, 2), None);
    assert_eq!(v, vec![1, 3]);
    assert_eq!(Remove::remove(&mut v, 0), Some(1));
    assert_eq!(Remove::remove(&mut v, 0), Some(3));
    assert_eq!(Remove::remove(&mut v, 0), None);
}

#[test]
fn vec_clear() {
    let mut v = vec![1, 2, 3];
    Clear::clear(&mut v);
    assert!(v.is_empty());
}

#[test]
fn vec_iter_goes_from_the_first_to_the_last() {
    let v = vec![3, 1, 2];
    let seen: Vec<i32> = Iter::iter(&v).copied().collect();
    assert_eq!(seen, vec![3, 1, 2]);
    let e: Vec<i32> = Vec::new();
    assert_eq!(Iter::iter(&e).next(), None);
}

#[test]
fn vec_iter_mut_writes_into_the_vector() {
    let mut v = vec![3, 1, 2];
    for x in IterMut::iter_mut(&mut v) {
        *x *= 10;
    }
    assert_eq!(v, vec![30, 10, 20]);
    let mut it = IterMut::iter_mut(&mut v);
    *it.next().unwrap() = 0;
    assert_eq!(v, vec![0, 10, 20]);
}

#[test]
fn vec_front_and_back() {
    let v = vec![1, 2, 3];
    assert_eq!(Front::front(&v), Some(&1));
    assert_eq!(Back::back(&v), Some(&3));
    let one = vec![7];
    assert_eq!(Front::front(&one), Some(&7));
    assert_eq!(Back::back(&one), Some(&7));
    let e: Vec<i32> = Vec::new();
    assert_eq!(Front::front(&e), None);
    assert_eq!(Back::back(&e), None);
}

#[test]
fn vec_front_mut_and_back_mut() {
    let mut v = vec![1, 2, 3];
    *FrontMut::front_mut(&mut v).unwrap() = 10;
    *BackMut::back_mut(&mut v).unwrap() = 30;
    assert_eq!(v, vec![10, 2, 30]);
    let mut e: Vec<i32> = Vec::new();
    assert!(FrontMut::front_mut(&mut e).is_none());
    assert!(BackMut::back_mut(&mut e).is_none());
}

#[test]
fn references_are_handed_on_as_they_are() {
    let x = 5;
    assert_eq!(<Vec<i32> as CollectionRef>::upcast_item_ref(&x), &5);
    assert_eq!(<Vec<i32> as SimpleCollectionRef>::into_ref(&x), &5);
    assert_eq!(<VecDeque<i32> as CollectionRef>::upcast_item_ref(&x), &5);
    assert_eq!(<VecDeque<i32> as SimpleCollectionRef>::into_ref(&x), &5);
    let mut y = 1;
    *<Vec<i32> as CollectionMut>::upcast_item_mut(&mut y) += 1;
    *<Vec<i32> as SimpleCollectionMut>::into_mut(&mut y) += 1;
    *<VecDeque<i32> as CollectionMut>::upcast_item_mut(&mut y) += 1;
    *<VecDeque<i32> as SimpleCollectionMut>::into_mut(&mut y) += 1;
    assert_eq!(y, 5);
}

#[test]
fn deque_with_capacity_is_empty() {
    let d: VecDeque<i32> = WithCapacity::with_capacity(10);
    assert_eq!(Len::len(&d), 0);
    assert!(Len::is_empty(&d));
    assert!(Capacity::capacity(&d) >= 10);
}

#[test]
fn deque_len_and_is_empty() {
    let mut d: VecDeque<i32> = VecDeque::new();
    assert!(Len::is_empty(&d));
    d.push_back(1);
    d.push_front(0);
    assert_eq!(Len::len(&d), 2);
    assert!(!Len::is_empty(&d));
}

#[test]
fn deque_reserve_keeps_the_items() {
    let mut d: VecDeque<i32> = VecDeque::new();
    d.push_back(1);
    Reserve::reserve(&mut d, 50);
    assert_eq!(d, VecDeque::from(vec![1]));
    assert!(Capacity::capacity(&d) >= 51);
}

#[test]
fn deque_front_and_back() {
    let mut d: VecDeque<i32> = VecDeque::new();
    assert_eq!(Front::front(&d), None);
    assert_eq!(Back::back(&d), None);
    d.push_back(2);
    assert_eq!(Front::front(&d), Some(&2));
    assert_eq!(Back::back(&d), Some(&2));
    d.push_back(3);
    d.push_front(1);
    assert_eq!(Front::front(&d), Some(&1));
    assert_eq!(Back::back(&d), Some(&3));
}

#[test]
fn deque_front_mut_and_back_mut() {
    let mut d: VecDeque<i32> = VecDeque::new();
    assert!(FrontMut::front_mut(&mut d).is_none());
    assert!(BackMut::back_mut(&mut d).is_none());
    d.push_back(2);
    d.push_back(3);
    d.push_front(1);
    *FrontMut::front_mut(&mut d).unwrap() += 10;
    *BackMut::back_mut(&mut d).unwrap() += 20;
    assert_eq!(d, VecDeque::from(vec![11, 2, 23]));
}

#[test]
fn deque_push_and_pop_at_both_ends() {
    let mut d: VecDeque<i32> = VecDeque::new();
    PushBack::push_back(&mut d, 2);
    PushFront::push_front(&mut d, 1);
    PushBack::push_back(&mut d, 3);
    assert_eq!(d, VecDeque::from(vec![1, 2, 3]));
    assert_eq!(PopFront::pop_front(&mut d), Some(1));
    assert_eq!(PopBack::pop_back(&mut d), Some(3));
    assert_eq!(d, VecDeque::from(vec![2]));
    assert_eq!(PopBack::pop_back(&mut d), Some(2));
    assert_eq!(PopBack::pop_back(&mut d), None);
    assert_eq!(PopFront::pop_front(&mut d), None);
}

#[test]
fn deque_clear() {
    let mut d = VecDeque::from(vec![1, 2, 3]);
    Clear::clear(&mut d);
    assert!(d.is_empty());
}

fn fill_and_drain<S: StackMut<i32> + Default>() -> Vec<i32> {
    let mut stack = S::default();
    let mut out = Vec::new();
    for i in 0..4 {
        stack.push_back(i);
    }
    if let Some(top) = stack.back_mut() {
        *top = 30;
    }
    out.push(stack.len() as i32);
    while let Some(x) = stack.pop_back() {
        out.push(x);
    }
    out
}

#[test]
fn a_stack_is_last_in_first_out() {
    assert_eq!(fill_and_drain::<Vec<i32>>(), vec![4, 30, 2, 1, 0]);
    assert_eq!(fill_and_drain::<VecDeque<i32>>(), vec![4, 30, 2, 1, 0]);
}

fn top_of<S: Stack<i32>>(stack: &S) -> Option<i32> {
    stack.back().copied()
}

fn ends_of<D: Deque<i32>>(deque: &D) -> (Option<i32>, Option<i32>) {
    (deque.front().copied(), deque.back().copied())
}

fn rotate<D: DequeMut<i32>>(deque: &mut D) {
    if let Some(x) = deque.pop_front() {
        deque.push_back(x);
    }
}

fn double_at<V: VecMut<i32>>(v: &mut V, index: usize) {
    v[index] *= 2;
}

fn item_of<S: Slab<i32>>(slab: &S, index: usize) -> Option<i32> {
    slab.get(index).copied()
}

fn swap_ends<D: VecDequeMut<i32>>(d: &mut D) {
    if d.len() >= 2 {
        let last = d.len() - 1;
        let (a, b) = (d[0], d[last]);
        d[0] = b;
        d[last] = a;
        d.push_front(0);
        d.pop_front();
    }
}

fn first_and_indexed<D: cc_traits::VecDeque<i32>>(d: &D) -> Option<(i32, i32)> {
    d.front().map(|x| (*x, d[0]))
}

fn grow<C: CapacityMut>(c: &mut C) -> usize {
    c.reserve(64);
    c.capacity()
}

#[test]
fn the_named_sets_of_operations_hold_of_the_collections() {
    let mut v = vec![1, 2, 3];
    assert_eq!(top_of(&v), Some(3));
    assert_eq!(ends_of(&v), (Some(1), Some(3)));
    double_at(&mut v, 1);
    assert_eq!(v, vec![1, 4, 3]);
    assert_eq!(item_of(&v, 1), Some(4));
    assert_eq!(item_of(&v, 3), None);
    assert!(grow(&mut v) >= 67);

    let mut d = VecDeque::from(vec![1, 2, 3]);
    assert_eq!(top_of(&d), Some(3));
    assert_eq!(ends_of(&d), (Some(1), Some(3)));
    rotate(&mut d);
    assert_eq!(d, VecDeque::from(vec![2, 3, 1]));
    swap_ends(&mut d);
    assert_eq!(d, VecDeque::from(vec![1, 3, 2]));
    assert_eq!(first_and_indexed(&d), Some((1, 1)));
    assert_eq!(first_and_indexed(&vec![4, 5]), Some((4, 4)));
    assert!(grow(&mut d) >= 67);
}

#[test]
fn vec_capacity_has_room_for_the_items() {
    let mut v: Vec<u32> = Vec::new();
    assert!(Capacity::capacity(&v) >= Len::len(&v));
    for i in 0..100 {
        PushBack::push_back(&mut v, i);
        assert!(Capacity::capacity(&v) >= Len::len(&v));
    }
    Reserve::reserve(&mut v, 1000);
    assert!(Capacity::capacity(&v) >= 1100);
    assert_eq!(Len::len(&v), 100);
    v.shrink_to_fit();
    assert!(Capacity::capacity(&v) >= 100);
    let units = vec![(), (), ()];
    assert!(Capacity::capacity(&units) >= 3);
}

#[test]
fn deque_capacity_has_room_for_the_items() {
    let mut d: VecDeque<u32> = VecDeque::new();
    assert!(Capacity::capacity(&d) >= Len::len(&d));
    for i in 0..100 {
        if i % 2 == 0 {
            PushBack::push_back(&mut d, i);
        } else {
            PushFront::push_front(&mut d, i);
        }
        assert!(Capacity::capacity(&d) >= Len::len(&d));
    }
    Reserve::reserve(&mut d, 1000);
    assert!(Capacity::capacity(&d) >= 1100);
    assert_eq!(Len::len(&d), 100);
    d.shrink_to_fit();
    assert!(Capacity::capacity(&d) >= 100);
}
