//! A contiguous sub-span of a text run's character sequence, described by a
//! begin index and a length.

use vstd::prelude::*;

verus! {

/// A half-open span `[begin, begin + length)` of character positions.
#[derive(Clone, Copy, Debug, PartialEq, Eq, Structural)]
pub struct Range {
    pub begin: usize,
    pub length: usize,
}

/// The index one past the last position of the span.
pub open spec fn range_end(r: Range) -> int {
    r.begin + r.length
}

impl Range {
    pub fn new(begin: usize, length: usize) -> (r: Range)
        requires
            begin + length <= usize::MAX,
        ensures
            r == (Range { begin, length }),
    {
        Range { begin, length }
    }

    pub fn begin(&self) -> (r: usize)
        ensures
            r == self.begin,
    {
        self.begin
    }

    pub fn length(&self) -> (r: usize)
        ensures
            r == self.length,
    {
        self.length
    }

    pub fn end(&self) -> (r: usize)
        requires
            self.begin + self.length <= usize::MAX,
        ensures
            r == range_end(*self),
    {
        self.begin + self.length
    }

    pub fn is_empty(&self) -> (r: bool)
        ensures
            r == (self.length == 0),
    {
        self.length == 0
    }

    /// Moves the whole span forward by `delta` positions.
    pub fn shift_by(&mut self, delta: usize)
        requires
            old(self).begin + delta <= usize::MAX,
        ensures
            *final(self) == (Range { begin: (old(self).begin + delta) as usize, length: old(self).length }),
    {
        self.begin = self.begin + delta;
    }

    /// Grows the span by `delta` positions at its end.
    pub fn extend_by(&mut self, delta: usize)
        requires
            old(self).length + delta <= usize::MAX,
        ensures
            *final(self) == (Range { begin: old(self).begin, length: (old(self).length + delta) as usize }),
    {
        self.length = self.length + delta;
    }
}

} // verus!
