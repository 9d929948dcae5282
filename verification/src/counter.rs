//! A counter that yields the numbers one through five, then stops.

use vstd::prelude::*;

verus! {

pub struct Counter {
    count: u32,
}

impl Counter {
    /// How many numbers the counter has yielded so far.
    pub closed spec fn spec_count(&self) -> u32 {
        self.count
    }

    /// A fresh counter that has yielded nothing.
    pub fn new() -> (r: Counter)
        ensures
            r.spec_count() == 0,
    {
        Counter { count: 0 }
    }

    /// The next number, counting 1 up to 5; `None` once five numbers have
    /// been yielded.
    pub fn next(&mut self) -> (r: Option<u32>)
        ensures
            old(self).spec_count() < 5 ==> final(self).spec_count() == old(self).spec_count() + 1
                && r == Some(final(self).spec_count()),
            old(self).spec_count() >= 5 ==> *final(self) == *old(self) && r is None,
    {
        if self.count < 5 {
            self.count += 1;
            Some(self.count)
        } else {
            None
        }
    }
}

} // verus!
