//! A guessed number, guaranteed by construction to lie between 1 and 100.

use vstd::prelude::*;

verus! {

pub struct Guess {
    value: i32,
}

impl Guess {
    /// The number held by the guess.
    pub closed spec fn spec_value(&self) -> i32 {
        self.value
    }

    /// Wrap a number between 1 and 100. Out-of-range numbers are not
    /// guesses: the bounds are a precondition, so no guess outside them can
    /// be constructed.
    pub fn new(value: i32) -> (r: Guess)
        requires
            1 <= value <= 100,
        ensures
            r.spec_value() == value,
    {
        Guess { value }
    }

    /// The number held by the guess, always between 1 and 100 for a guess
    /// made by [`Guess::new`].
    pub fn value(&self) -> (r: i32)
        ensures
            r == self.spec_value(),
    {
        self.value
    }
}

} // verus!
