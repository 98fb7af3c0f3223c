//! Dispatch over the two-tag optional shape: absent, or present with a value.

use vstd::prelude::*;

verus! {

/// Three optional values: a present number, a present character and an
/// absent number.
#[derive(Debug, Clone, Copy, PartialEq, Eq, Structural)]
pub struct OptionSamples {
    pub some_number: Option<i32>,
    pub some_char: Option<char>,
    pub absent_number: Option<i32>,
}

/// What [`matching_with_option_t`] found: the number it started from and
/// what [`plus_one`] made of it and of nothing.
#[derive(Debug, Clone, Copy, PartialEq, Eq, Structural)]
pub struct PlusOneSamples {
    pub five: Option<i32>,
    pub six: Option<i32>,
    pub none: Option<i32>,
}

/// The present 5, the present `e`, and an absent number.
pub fn option_type() -> (samples: OptionSamples)
    ensures
        samples.some_number == Some(5i32),
        samples.some_char == Some('e'),
        samples.absent_number == None::<i32>,
{
    let some_number = Some(5);
    let some_char = Some('e');
    let absent_number: Option<i32> = None;

    OptionSamples { some_number, some_char, absent_number }
}

/// Adds one to the number inside `x`. Where there is none, there is none
/// to add to, and the result is absent too.
pub fn plus_one(x: Option<i32>) -> (y: Option<i32>)
    requires
        x != Some(i32::MAX),
    ensures
        x is None ==> y is None,
        x matches Some(i) ==> y matches Some(j) && j == i + 1,
{
    match x {
        None => None,
        Some(i) => Some(i + 1),
    }
}

/// Adds one to the number inside `x`, which has to be there. The absent
/// case has a branch that only aborts: it is left out of what callers may
/// pass.
pub fn plus_one_broken(x: Option<i32>) -> (y: Option<i32>)
    requires
        x is Some,
        x != Some(i32::MAX),
    ensures
        y matches Some(j) && j == x->0 + 1,
{
    match x {
        Some(i) => Some(i + 1),
        None => vstd::pervasive::unreached(),
    }
}

/// Adds one to the present 5 and to nothing.
pub fn matching_with_option_t() -> (samples: PlusOneSamples)
    ensures
        samples.five == Some(5i32),
        samples.six == Some(6i32),
        samples.none == None::<i32>,
{
    let five = Some(5);
    let six = plus_one(five);
    let none = plus_one(None);

    PlusOneSamples { five, six, none }
}

} // verus!
