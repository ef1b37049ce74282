use vstd::prelude::*;

verus! {

/// Highest page index the pagination control can reach.
pub const PAGE_MAX: u8 = 10;

/// A page index bounded to the range `0 ..= PAGE_MAX`, mutated only by
/// saturating steps of one in either direction.
pub struct PageIndex {
    index: u8,
}

impl PageIndex {
    /// The current index as a mathematical integer.
    pub closed spec fn value(self) -> int {
        self.index as int
    }

    /// Well-formedness: the index never leaves `0 ..= PAGE_MAX`.
    pub open spec fn wf(self) -> bool {
        0 <= self.value() <= PAGE_MAX as int
    }

    /// A fresh page index, starting at the first page.
    pub fn new() -> (r: PageIndex)
        ensures
            r.wf(),
            r.value() == 0,
    {
        PageIndex { index: 0 }
    }

    /// The current index as a machine integer.
    pub fn get(&self) -> (r: u8)
        ensures
            r as int == self.value(),
    {
        self.index
    }

    /// Step forward one page, saturating at `PAGE_MAX`: advancing at the
    /// upper bound leaves the index unchanged.
    pub fn advance(&mut self)
        requires
            old(self).wf(),
        ensures
            final(self).wf(),
            final(self).value() == if old(self).value() == PAGE_MAX as int {
                PAGE_MAX as int
            } else {
                old(self).value() + 1
            },
    {
        if self.index < PAGE_MAX {
            self.index = self.index + 1;
        }
    }

    /// Step back one page, saturating at zero: retreating at the lower
    /// bound leaves the index unchanged.
    pub fn retreat(&mut self)
        requires
            old(self).wf(),
        ensures
            final(self).wf(),
            final(self).value() == if old(self).value() == 0 {
                0int
            } else {
                old(self).value() - 1
            },
    {
        if self.index > 0 {
            self.index = self.index - 1;
        }
    }

    /// Whether the "previous page" control is rendered at all: present
    /// exactly when a previous page exists.
    pub fn show_prev(&self) -> (r: bool)
        ensures
            r == (self.value() > 0),
    {
        self.index > 0
    }

    /// Whether the "next page" control is rendered at all: present exactly
    /// when a further page exists.
    pub fn show_next(&self) -> (r: bool)
        ensures
            r == (self.value() < PAGE_MAX as int),
    {
        self.index < PAGE_MAX
    }
}

} // verus!
