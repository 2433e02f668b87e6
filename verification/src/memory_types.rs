//! Owned heap values and mutation through references.

use vstd::prelude::*;

verus! {

/// Adds ten to the number behind `value`. The sum must fit in an `i32`.
pub fn modify_exterior(value: &mut i32)
    requires
        *old(value) + 10 <= i32::MAX,
    ensures
        *final(value) == *old(value) + 10,
{
    *value += 10;
}

/// A value kept on the heap and reached through the box that owns it.
pub struct MyBox<T> {
    inner: Box<T>,
}

impl<T> View for MyBox<T> {
    type V = T;

    /// The value in the box.
    closed spec fn view(&self) -> T {
        *self.inner
    }
}

impl<T> MyBox<T> {
    /// A box holding `value`.
    pub fn new(value: T) -> (boxed: Self)
        ensures
            boxed@ == value,
    {
        MyBox { inner: Box::new(value) }
    }

    /// The value in the box.
    pub fn deref(&self) -> (value: &T)
        ensures
            *value == self@,
    {
        &*self.inner
    }

    /// Takes the value out of the box.
    pub fn into_inner(self) -> (value: T)
        ensures
            value == self@,
    {
        *self.inner
    }
}

} // verus!
