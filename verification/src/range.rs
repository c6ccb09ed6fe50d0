//! Half-open block ranges and the containment check guarding every
//! segment the rebuild engine touches.

use vstd::prelude::*;

verus! {

/// A half-open interval `[start, end)` of block offsets.
#[derive(Clone, Copy, Debug, PartialEq, Eq, Structural)]
pub struct Range {
    pub start: u64,
    pub end: u64,
}

impl Range {
    /// A range is well-formed when it holds at least one block.
    pub open spec fn wf(self) -> bool {
        self.start < self.end
    }

    /// Number of blocks in the range.
    pub open spec fn spec_len(self) -> int {
        self.end - self.start
    }

    pub fn new(start: u64, end: u64) -> (r: Range)
        ensures
            r.start == start,
            r.end == end,
    {
        Range { start, end }
    }

    /// Number of blocks in the range.
    pub fn len(&self) -> (r: u64)
        requires
            self.start <= self.end,
        ensures
            r == self.spec_len(),
    {
        self.end - self.start
    }

}

/// Checks whether a range is contained within another range.
pub trait Within<T> {
    /// What containment means, stated for contracts.
    spec fn spec_within(&self, right: T) -> bool;

    /// True if `self` is contained within `right`, otherwise false.
    fn within(&self, right: T) -> (r: bool)
        ensures
            r == self.spec_within(right),
    ;
}

impl Within<Range> for Range {
    /// Both ranges must be well-formed and `self` must lie inside `right`.
    open spec fn spec_within(&self, right: Range) -> bool {
        &&& self.wf()
        &&& right.wf()
        &&& self.start >= right.start
        &&& self.end <= right.end
    }

    fn within(&self, right: Range) -> (r: bool) {
        self.start < self.end && right.start < right.end && self.start >= right.start
            && self.end <= right.end
    }
}

/// A candidate range is never accepted when it is malformed or reaches
/// outside its bounding range.
pub proof fn lemma_within_rejects_out_of_bounds(candidate: Range, bounding: Range)
    ensures
        candidate.start >= candidate.end ==> !candidate.spec_within(bounding),
        candidate.start < bounding.start ==> !candidate.spec_within(bounding),
        candidate.end > bounding.end ==> !candidate.spec_within(bounding),
{
}

} // verus!
