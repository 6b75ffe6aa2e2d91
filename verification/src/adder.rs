//! Small arithmetic and greeting helpers, and a guarded guess value.

use vstd::prelude::*;
use vstd::string::StringExecFns;

verus! {

/// Adds two unsigned numbers.
pub fn add(left: usize, right: usize) -> (r: usize)
    requires
        left + right <= usize::MAX,
    ensures
        r == left + right,
{
    left + right
}

/// Adds two to a signed number.
pub fn add_two(a: i32) -> (r: i32)
    requires
        a + 2 <= i32::MAX,
    ensures
        r == a + 2,
{
    a + 2
}

/// Adds two signed numbers.
pub fn internal_adder(a: i32, b: i32) -> (r: i32)
    requires
        i32::MIN <= a + b <= i32::MAX,
    ensures
        r == a + b,
{
    a + b
}

/// Builds the greeting `Hello <name>!`.
pub fn greeting(name: &str) -> (r: String)
    ensures
        r@ == "Hello "@ + name@ + "!"@,
{
    String::from_str("Hello ").concat(name).concat("!")
}

/// A number that is known to lie between 1 and 100.
pub struct Guess {
    value: i32,
}

impl Guess {
    /// The value held by the guess.
    pub closed spec fn spec_value(&self) -> int {
        self.value as int
    }

    /// Wraps a value; out-of-range values are ruled out by the caller.
    pub fn new(value: i32) -> (r: Guess)
        requires
            1 <= value <= 100,
        ensures
            r.spec_value() == value,
    {
        Guess { value }
    }

    /// Reads the wrapped value back.
    pub fn value(&self) -> (r: i32)
        ensures
            r == self.spec_value(),
    {
        self.value
    }
}

} // verus!
