use cc_traits::Back;
use cc_traits::Collection;
use cc_traits::PushBack;
use std::collections::VecDeque;

/// Ordered stack.
pub struct Ordered<S> {
    inner: S,
}

impl<S> Ordered<S> {
    pub fn new() -> Self
    where
        S: Default,
    {
        Ordered { inner: S::default() }
    }

    /// Push the given element on the stack iff it is greater or equal
    /// to every other element already in the stack.
    pub fn try_push<T>(&mut self, element: T) -> Result<(), T>
    where
        T: PartialOrd,
        S: Collection<Item = T> + Back + PushBack,
    {
        if self.inner.back().map(|back| back <= &element).unwrap_or(true) {
            self.inner.push_back(element);
            Ok(())
        } else {
            Err(element)
        }
    }
}

fn ordered_stack_usage<S>()
where
    S: Default + Collection<Item = i32> + Back + PushBack,
{
    let mut ordered: Ordered<S> = Ordered::new();
    assert!(ordered.try_push(1).is_ok());
    assert!(ordered.try_push(2).is_ok());
    assert!(ordered.try_push(0).is_err());
}

#[test]
fn ordered_stack_on_vec() {
    ordered_stack_usage::<Vec<i32>>();
}

#[test]
fn ordered_stack_on_vec_deque() {
    ordered_stack_usage::<VecDeque<i32>>();
}
