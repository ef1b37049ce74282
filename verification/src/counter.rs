use vstd::prelude::*;

verus! {

/// A display counter driven by a plain click action: it only ever grows,
/// by exactly one per activation, with no upper bound of its own.
pub struct Counter {
    count: u64,
}

impl Counter {
    /// The current count.
    pub closed spec fn value(self) -> int {
        self.count as int
    }

    /// A fresh counter, starting at zero.
    pub fn new() -> (r: Counter)
        ensures
            r.value() == 0,
    {
        Counter { count: 0 }
    }

    /// The current count as a machine integer.
    pub fn get(&self) -> (r: u64)
        ensures
            r as int == self.value(),
    {
        self.count
    }

    /// One activation: the count rises by exactly one. The only bound is
    /// the machine word the count lives in.
    pub fn increment(&mut self)
        requires
            old(self).value() < u64::MAX as int,
        ensures
            final(self).value() == old(self).value() + 1,
    {
        self.count = self.count + 1;
    }
}

} // verus!
