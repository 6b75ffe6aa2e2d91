//! A cons list whose tail is a shared pointer, so two lists can share a
//! suffix — or, by swapping a tail, form the intentional strong cycle.

use vstd::prelude::*;
use crate::heap::SharedPointer;

verus! {

/// A list cell: a value and a shared handle to the rest, or the end.
pub enum List {
    Cons(i32, SharedPointer),
    Nil,
}

impl List {
    /// The handle to the rest of the list, if this cell has one.
    pub fn tail(&self) -> (r: Option<&SharedPointer>)
        ensures
            r is Some <==> self is Cons,
            r matches Some(p) ==> *p == self->Cons_1,
    {
        match self {
            List::Cons(_, item) => Some(item),
            List::Nil => None,
        }
    }

    /// The value this cell carries, if it is not the end.
    pub fn head(&self) -> (r: Option<i32>)
        ensures
            r is Some <==> self is Cons,
            r matches Some(v) ==> v == self->Cons_0,
    {
        match self {
            List::Cons(value, _) => Some(*value),
            List::Nil => None,
        }
    }
}

} // verus!
