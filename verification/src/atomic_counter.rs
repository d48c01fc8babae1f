//! A monotonically increasing counter used to number worker threads.
//!
//! The counter hands out `0, 1, 2, ...` and wraps around at `usize::MAX`,
//! matching the wrap-around of a fetch-and-add.  Sharing it across threads is
//! the embedding program's concern; here the state is explicit and every step
//! is exact.

use vstd::prelude::*;

verus! {

pub struct AtomicCounter {
    next_value: usize,
}

impl AtomicCounter {
    /// The value the next call to `next` will return.
    pub closed spec fn current(self) -> nat {
        self.next_value as nat
    }

    pub fn new() -> (c: Self)
        ensures
            c.current() == 0,
    {
        AtomicCounter { next_value: 0 }
    }

    /// The value the next call to `next` will return, without counting up.
    pub fn peek(&self) -> (n: usize)
        ensures
            n == self.current(),
    {
        self.next_value
    }

    /// Counts up and returns the value the counter held before the call.
    pub fn next(&mut self) -> (n: usize)
        ensures
            n == old(self).current(),
            final(self).current() == if old(self).current() == usize::MAX {
                0nat
            } else {
                old(self).current() + 1
            },
    {
        let n = self.next_value;
        if self.next_value == usize::MAX {
            self.next_value = 0;
        } else {
            self.next_value = self.next_value + 1;
        }
        n
    }
}

} // verus!
