//! A unique-owner heap pointer.
//!
//! An [`OwningPointer`] moves its value onto the heap and is itself a plain,
//! always-sized handle, so a recursively-defined type can be given a fixed
//! size: the allocation, not the handle, holds the unbounded part.  The
//! handle has exactly one owner; moving the binding transfers ownership and
//! there is no copy operation.  Teardown is the consuming
//! [`OwningPointer::into_inner`]: because the handle is spent by the move,
//! the finalization point is reached exactly once per handle, and no second
//! trigger can fire on the same handle afterwards.

use vstd::prelude::*;

verus! {

/// A sole-owner handle to one heap-resident value.
pub struct OwningPointer<T> {
    value: Box<T>,
}

impl<T> View for OwningPointer<T> {
    type V = T;

    closed spec fn view(&self) -> T {
        *self.value
    }
}

impl<T> OwningPointer<T> {
    /// Moves `value` onto the heap and returns the unique handle to it.
    pub fn allocate(value: T) -> (r: OwningPointer<T>)
        ensures
            r@ == value,
    {
        OwningPointer { value: Box::new(value) }
    }

    /// Borrowed read access; ownership stays with the handle.
    pub fn read(&self) -> (r: &T)
        ensures
            *r == self@,
    {
        &self.value
    }

    /// Borrowed write access through the handle's single owner.
    pub fn read_mut(&mut self) -> (r: &mut T)
        ensures
            *r == old(self)@,
            final(self)@ == *final(r),
    {
        &mut self.value
    }

    /// Overwrites the owned value in place.
    pub fn set(&mut self, value: T)
        ensures
            final(self)@ == value,
    {
        *self.value = value;
    }

    /// Swaps the owned value, returning the old one.
    pub fn replace(&mut self, value: T) -> (r: T)
        ensures
            r == old(self)@,
            final(self)@ == value,
    {
        let mut slot = value;
        core::mem::swap(&mut *self.value, &mut slot);
        slot
    }

    /// Consumes the handle, releases the backing allocation and hands the
    /// value back for its own teardown: the finalization point of the
    /// unique owner, reached exactly once because the handle is moved.
    pub fn into_inner(self) -> (r: T)
        ensures
            r == self@,
    {
        *self.value
    }
}

} // verus!
