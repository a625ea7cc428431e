//! Index ranges into a backing string.
//!
//! A parsed message never copies the text it was parsed from: every
//! component is a `(start, end)` pair of character positions into the one
//! backing string, and the pair is only meaningful next to that string.

use vstd::prelude::*;

verus! {

/// A half-open range `[start, end)` of character positions into a backing
/// string. `end >= start` always holds; an empty range is permitted.
#[derive(Clone, Copy, Debug, PartialEq, Eq, Structural)]
pub struct StrIndex {
    /// First character position of the range.
    pub start: usize,
    /// One past the last character position of the range.
    pub end: usize,
}

impl StrIndex {
    /// `end >= start`: the range is well formed.
    pub open spec fn wf(self) -> bool {
        self.start <= self.end
    }

    /// The range lies within a string of `n` characters.
    pub open spec fn in_bounds(self, n: nat) -> bool {
        self.wf() && self.end <= n
    }

    /// The characters the range selects out of `s`.
    pub open spec fn extract(self, s: Seq<char>) -> Seq<char> {
        s.subrange(self.start as int, self.end as int)
    }

    /// An empty range positioned at `pos`.
    pub fn new(pos: usize) -> (r: Self)
        ensures
            r.start == pos,
            r.end == pos,
            r.wf(),
    {
        Self { start: pos, end: pos }
    }

    /// Whether the range selects no characters.
    pub fn is_empty(&self) -> (r: bool)
        requires
            self.wf(),
        ensures
            r == (self.start == self.end),
    {
        self.start == self.end
    }

    /// The number of characters the range selects.
    pub fn len(&self) -> (r: usize)
        requires
            self.wf(),
        ensures
            r == self.end - self.start,
    {
        self.end - self.start
    }
}

} // verus!
