//! A guarded guess value and checked subtraction.

use vstd::prelude::*;

verus! {

/// A guess, guaranteed to lie between one and one hundred inclusive.
pub struct Guess {
    val: i32,
}

impl Guess {
    /// The guessed number.
    pub closed spec fn spec_value(&self) -> i32 {
        self.val
    }

    /// Wraps a number between one and one hundred.
    pub fn new(arg: i32) -> (g: Guess)
        requires
            1 <= arg <= 100,
        ensures
            g.spec_value() == arg,
    {
        Guess { val: arg }
    }
}

/// Subtraction on machine integers, defined when it cannot underflow.
pub fn subtract(l: usize, r: usize) -> (d: usize)
    requires
        r <= l,
    ensures
        d == l - r,
{
    l - r
}

} // verus!
