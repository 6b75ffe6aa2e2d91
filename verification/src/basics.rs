//! Small numeric helpers and functions passed by value.

use vstd::prelude::*;

verus! {

/// Adds one to the number given.
pub fn add_one(x: i32) -> (r: i32)
    requires
        x < i32::MAX,
    ensures
        r == x + 1,
{
    x + 1
}

/// The constant five.
pub fn five() -> (r: i32)
    ensures
        r == 5,
{
    5
}

/// Adds one to the number given.
pub fn plus_one(x: i32) -> (r: i32)
    requires
        x < i32::MAX,
    ensures
        r == x + 1,
{
    x + 1
}

/// Applies `f` twice to the same argument and adds the two results.
pub fn do_twice<F: Fn(i32) -> i32>(f: F, arg: i32) -> (r: i32)
    requires
        call_requires(f, (arg,)),
        forall|a: i32, b: i32|
            call_ensures(f, (arg,), a) && call_ensures(f, (arg,), b) ==> i32::MIN <= a + b
                <= i32::MAX,
    ensures
        exists|a: i32, b: i32|
            call_ensures(f, (arg,), a) && call_ensures(f, (arg,), b) && r == a + b,
{
    let x = f(arg);
    let y = f(arg);
    x + y
}

/// A day's workout.
#[derive(Debug, Clone, Copy, PartialEq, Eq, Structural)]
pub enum Workout {
    /// This many pushups, then as many situps.
    PushupsAndSitups(u32),
    /// A rest day.
    Break,
    /// A run of this many minutes.
    Run(u32),
}

/// The workout owed for an intensity and the day's random number.
pub open spec fn spec_workout(intensity: u32, random_number: u32) -> Workout {
    if intensity < 25 {
        Workout::PushupsAndSitups(intensity)
    } else if random_number == 3 {
        Workout::Break
    } else {
        Workout::Run(intensity)
    }
}

/// Plans a workout: light intensities get pushups and situps, a lucky
/// random number earns a break, everything else a run.
pub fn workout_plan(intensity: u32, random_number: u32) -> (r: Workout)
    ensures
        r == spec_workout(intensity, random_number),
{
    if intensity < 25 {
        Workout::PushupsAndSitups(intensity)
    } else if random_number == 3 {
        Workout::Break
    } else {
        Workout::Run(intensity)
    }
}

/// Hands out the add-one function as a value.
pub fn returns_closure() -> (r: impl Fn(i32) -> i32)
    ensures
        forall|x: i32| x < i32::MAX ==> #[trigger] call_requires(r, (x,)),
        forall|x: i32, y: i32| #[trigger] call_ensures(r, (x,), y) ==> y == x + 1,
{
    |x: i32| -> (y: i32)
        requires
            x < i32::MAX,
        ensures
            y == x + 1,
        {
            x + 1
        }
}

} // verus!
