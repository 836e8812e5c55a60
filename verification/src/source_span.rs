//! A byte range in source text, packed for the front end's token stream.

use vstd::prelude::*;

verus! {

/// A byte range, typically representing a slice of source text.
#[derive(Clone, Copy, Debug, PartialEq, Eq, Hash, Structural)]
pub struct Span {
    end: u32,
    start: u32,
}

impl Span {
    /// The starting position of the range.
    pub closed spec fn spec_start(&self) -> u32 {
        self.start
    }

    /// The ending position of the range.
    pub closed spec fn spec_end(&self) -> u32 {
        self.end
    }

    /// A new range from its start and end positions.
    pub fn new(start: u32, end: u32) -> (r: Self)
        ensures
            r.spec_start() == start,
            r.spec_end() == end,
    {
        Span { end, start }
    }

    /// The ending position.
    pub fn end(self) -> (r: u32)
        ensures
            r == self.spec_end(),
    {
        self.end
    }

    /// A mutable borrow of the ending position.
    pub fn end_mut(&mut self) -> (r: &mut u32)
        ensures
            *r == old(self).spec_end(),
            final(self).spec_end() == *final(r),
            final(self).spec_start() == old(self).spec_start(),
    {
        &mut self.end
    }

    /// The starting position.
    pub fn start(self) -> (r: u32)
        ensures
            r == self.spec_start(),
    {
        self.start
    }

    /// A mutable borrow of the starting position.
    pub fn start_mut(&mut self) -> (r: &mut u32)
        ensures
            *r == old(self).spec_start(),
            final(self).spec_start() == *final(r),
            final(self).spec_end() == old(self).spec_end(),
    {
        &mut self.start
    }
}

} // verus!
