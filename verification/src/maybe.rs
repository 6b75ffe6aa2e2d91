//! An optional value of the library's own, with contracted accessors.

use vstd::prelude::*;

verus! {

/// Either a value or nothing.
pub enum Maybe<T> {
    Nothing,
    Just(T),
}

impl<T> Maybe<T> {
    /// Takes the value out; absence is ruled out by the caller.
    pub fn unwrap(self) -> (r: T)
        requires
            self is Just,
        ensures
            self == Maybe::Just(r),
    {
        match self {
            Maybe::Just(v) => v,
            Maybe::Nothing => vstd::pervasive::unreached(),
        }
    }

    /// Takes the value out, or computes a default with `f` when there is
    /// none.
    pub fn unwrap_or_else<F: FnOnce() -> T>(self, f: F) -> (r: T)
        requires
            self is Nothing ==> call_requires(f, ()),
        ensures
            self matches Maybe::Just(v) ==> r == v,
            self is Nothing ==> call_ensures(f, (), r),
    {
        match self {
            Maybe::Just(v) => v,
            Maybe::Nothing => f(),
        }
    }
}

} // verus!
