//! Index ranges accepted by slice retrieval, read as a pair of bounds.
use vstd::prelude::*;
use core::ops::{Range, RangeFrom, RangeFull, RangeInclusive, RangeTo, RangeToInclusive};

verus! {

/// Declares std's `RangeFull` (`..`), a unit struct, for use as an index range.
#[verifier::external_type_specification]
pub struct ExRangeFull(RangeFull);

/// Declares std's `RangeFrom` (`a..`), whose public field `start` is read.
#[verifier::external_type_specification]
#[verifier::reject_recursive_types(Idx)]
pub struct ExRangeFrom<Idx>(RangeFrom<Idx>);

/// Declares std's `RangeTo` (`..b`), whose public field `end` is read.
#[verifier::external_type_specification]
#[verifier::reject_recursive_types(Idx)]
pub struct ExRangeTo<Idx>(RangeTo<Idx>);

/// Declares std's `RangeToInclusive` (`..=b`), whose public field `end` is read.
#[verifier::external_type_specification]
#[verifier::reject_recursive_types(Idx)]
pub struct ExRangeToInclusive<Idx>(RangeToInclusive<Idx>);

/// One end of an index range.
#[derive(Clone, Copy, Debug, PartialEq, Eq, Structural)]
pub enum IndexBound {
    Included(usize),
    Excluded(usize),
    Unbounded,
}

/// A range of indices, given by its start bound and its end bound.
pub trait SliceBounds {
    /// Whether the bounds of this value can be read.
    spec fn bounds_known(&self) -> bool;

    /// The start bound and the end bound.
    spec fn bounds_spec(&self) -> (IndexBound, IndexBound);

    fn bounds(&self) -> (r: (IndexBound, IndexBound))
        requires
            self.bounds_known(),
        ensures
            r == self.bounds_spec(),
    ;
}

impl SliceBounds for RangeFull {
    open spec fn bounds_known(&self) -> bool {
        true
    }

    open spec fn bounds_spec(&self) -> (IndexBound, IndexBound) {
        (IndexBound::Unbounded, IndexBound::Unbounded)
    }

    fn bounds(&self) -> (r: (IndexBound, IndexBound)) {
        (IndexBound::Unbounded, IndexBound::Unbounded)
    }
}

impl SliceBounds for Range<usize> {
    open spec fn bounds_known(&self) -> bool {
        true
    }

    open spec fn bounds_spec(&self) -> (IndexBound, IndexBound) {
        (IndexBound::Included(self.start), IndexBound::Excluded(self.end))
    }

    fn bounds(&self) -> (r: (IndexBound, IndexBound)) {
        (IndexBound::Included(self.start), IndexBound::Excluded(self.end))
    }
}

impl SliceBounds for RangeFrom<usize> {
    open spec fn bounds_known(&self) -> bool {
        true
    }

    open spec fn bounds_spec(&self) -> (IndexBound, IndexBound) {
        (IndexBound::Included(self.start), IndexBound::Unbounded)
    }

    fn bounds(&self) -> (r: (IndexBound, IndexBound)) {
        (IndexBound::Included(self.start), IndexBound::Unbounded)
    }
}

impl SliceBounds for RangeTo<usize> {
    open spec fn bounds_known(&self) -> bool {
        true
    }

    open spec fn bounds_spec(&self) -> (IndexBound, IndexBound) {
        (IndexBound::Unbounded, IndexBound::Excluded(self.end))
    }

    fn bounds(&self) -> (r: (IndexBound, IndexBound)) {
        (IndexBound::Unbounded, IndexBound::Excluded(self.end))
    }
}

impl SliceBounds for RangeToInclusive<usize> {
    open spec fn bounds_known(&self) -> bool {
        true
    }

    open spec fn bounds_spec(&self) -> (IndexBound, IndexBound) {
        (IndexBound::Unbounded, IndexBound::Included(self.end))
    }

    fn bounds(&self) -> (r: (IndexBound, IndexBound)) {
        (IndexBound::Unbounded, IndexBound::Included(self.end))
    }
}

/// Relies on RangeInclusive::start: the lower bound of a range that has not
/// been iterated to exhaustion.
#[verifier::external_body]
fn inclusive_start(r: &RangeInclusive<usize>) -> (s: usize)
    requires
        !r@.exhausted,
    ensures
        s == r@.start,
{
    *r.start()
}

/// Relies on RangeInclusive::end: the upper bound of a range that has not
/// been iterated to exhaustion.
#[verifier::external_body]
fn inclusive_end(r: &RangeInclusive<usize>) -> (e: usize)
    requires
        !r@.exhausted,
    ensures
        e == r@.end,
{
    *r.end()
}

impl SliceBounds for RangeInclusive<usize> {
    open spec fn bounds_known(&self) -> bool {
        !self@.exhausted
    }

    open spec fn bounds_spec(&self) -> (IndexBound, IndexBound) {
        (IndexBound::Included(self@.start), IndexBound::Included(self@.end))
    }

    fn bounds(&self) -> (r: (IndexBound, IndexBound)) {
        (IndexBound::Included(inclusive_start(self)), IndexBound::Included(inclusive_end(self)))
    }
}

impl SliceBounds for (IndexBound, IndexBound) {
    open spec fn bounds_known(&self) -> bool {
        true
    }

    open spec fn bounds_spec(&self) -> (IndexBound, IndexBound) {
        *self
    }

    fn bounds(&self) -> (r: (IndexBound, IndexBound)) {
        *self
    }
}

} // verus!
