//! Coin denominations and small enum helpers.

use vstd::prelude::*;

verus! {

/// A coin denomination.
#[derive(Debug, Clone, Copy, PartialEq, Eq, Structural)]
pub enum Coin {
    Penny,
    Nickel,
    Dime,
    Quarter,
}

/// The worth of each denomination in cents.
pub open spec fn coin_value(coin: Coin) -> u8 {
    match coin {
        Coin::Penny => 1u8,
        Coin::Nickel => 5u8,
        Coin::Dime => 10u8,
        Coin::Quarter => 25u8,
    }
}

/// Converts a coin to its worth in cents.
pub fn value_in_cents(coin: Coin) -> (r: u8)
    ensures
        r == coin_value(coin),
{
    match coin {
        Coin::Penny => 1,
        Coin::Nickel => 5,
        Coin::Dime => 10,
        Coin::Quarter => 25,
    }
}

/// Adds one inside an optional value; absence stays absence.
pub fn plus_one(x: Option<i32>) -> (r: Option<i32>)
    requires
        x matches Some(i) ==> i < i32::MAX,
    ensures
        match x {
            None => r is None,
            Some(i) => r == Some((i + 1) as i32),
        },
{
    match x {
        None => None,
        Some(i) => Some(i + 1),
    }
}

} // verus!
