use std::ops::{Bound, Range, RangeBounds, RangeFrom, RangeFull, RangeInclusive, RangeTo, RangeToInclusive};
use vstd::prelude::*;

verus! {

/// `std::ops::RangeFull` (`..`), a unit struct.
#[verifier::external_type_specification]
pub struct ExRangeFull(RangeFull);

/// `std::ops::RangeFrom` (`a..`), whose one field `start` is public and read by the
/// impl of `ByteRange` below.
#[verifier::external_type_specification]
#[verifier::reject_recursive_types(Idx)]
pub struct ExRangeFrom<Idx>(RangeFrom<Idx>);

/// `std::ops::RangeTo` (`..b`), whose one field `end` is public and read by the
/// impl of `ByteRange` below.
#[verifier::external_type_specification]
#[verifier::reject_recursive_types(Idx)]
pub struct ExRangeTo<Idx>(RangeTo<Idx>);

/// `std::ops::RangeToInclusive` (`..=b`), whose one field `end` is public and read by
/// the impl of `ByteRange` below.
#[verifier::external_type_specification]
#[verifier::reject_recursive_types(Idx)]
pub struct ExRangeToInclusive<Idx>(RangeToInclusive<Idx>);

/// `std::ops::Bound`, whose public variants the impl of `ByteRange` for a pair of
/// bounds below tells apart.
#[verifier::external_type_specification]
#[verifier::reject_recursive_types(T)]
pub struct ExBound<T>(Bound<T>);

/// `RangeInclusive::start`: the range's lower bound, as the range was built with it.
#[verifier::external_body]
fn inclusive_start(r: &RangeInclusive<usize>) -> (s: usize)
    ensures
        s == r@.start,
{
    *r.start()
}

/// `RangeBounds::end_bound` on an inclusive range: its last value, included, until the
/// range has been iterated to exhaustion, after which the bound excludes it.
#[verifier::external_body]
fn inclusive_end_bound(r: &RangeInclusive<usize>) -> (b: SliceBound)
    ensures
        b == (if r@.exhausted {
            SliceBound::Excluded(r@.end)
        } else {
            SliceBound::Included(r@.end)
        }),
{
    match RangeBounds::end_bound(r) {
        Bound::Included(n) => SliceBound::Included(*n),
        Bound::Excluded(n) => SliceBound::Excluded(*n),
        Bound::Unbounded => SliceBound::Unbounded,
    }
}

/// One end of a range of byte offsets.
#[derive(Clone, Copy, Debug, PartialEq, Eq, Structural)]
pub enum SliceBound {
    /// The offset itself belongs to the range.
    Included(usize),
    /// The offset itself does not belong to the range.
    Excluded(usize),
    /// The range is open on this side.
    Unbounded,
}

/// The first offset that a range with lower bound `b` covers.
pub open spec fn start_offset(b: SliceBound) -> int {
    match b {
        SliceBound::Included(n) => n as int,
        SliceBound::Excluded(n) => n + 1,
        SliceBound::Unbounded => 0,
    }
}

/// The offset just past the last one that a range with upper bound `b` covers,
/// in a sequence of length `len`.
pub open spec fn end_offset(b: SliceBound, len: int) -> int {
    match b {
        SliceBound::Included(n) => n + 1,
        SliceBound::Excluded(n) => n as int,
        SliceBound::Unbounded => len,
    }
}

/// Whether offset `i` lies on the admitted side of the lower bound `b`.
pub open spec fn above_lower(b: SliceBound, i: int) -> bool {
    match b {
        SliceBound::Included(n) => n <= i,
        SliceBound::Excluded(n) => n < i,
        SliceBound::Unbounded => true,
    }
}

/// Whether offset `i` lies on the admitted side of the upper bound `b`.
pub open spec fn below_upper(b: SliceBound, i: int) -> bool {
    match b {
        SliceBound::Included(n) => i <= n,
        SliceBound::Excluded(n) => i < n,
        SliceBound::Unbounded => true,
    }
}

/// Whether `range` admits offset `i`.
pub open spec fn range_admits<R: ByteRange>(range: R, i: int) -> bool {
    above_lower(range.lower(), i) && below_upper(range.upper(), i)
}

/// A range of byte offsets, given by its two bounds.
pub trait ByteRange {
    /// The range's lower bound.
    spec fn lower(&self) -> SliceBound;

    /// The range's upper bound.
    spec fn upper(&self) -> SliceBound;

    /// Returns the lower bound.
    fn start_bound(&self) -> (b: SliceBound)
        ensures
            b == self.lower(),
    ;

    /// Returns the upper bound.
    fn end_bound(&self) -> (b: SliceBound)
        ensures
            b == self.upper(),
    ;
}

impl ByteRange for (SliceBound, SliceBound) {
    open spec fn lower(&self) -> SliceBound {
        self.0
    }

    open spec fn upper(&self) -> SliceBound {
        self.1
    }

    fn start_bound(&self) -> (b: SliceBound) {
        self.0
    }

    fn end_bound(&self) -> (b: SliceBound) {
        self.1
    }
}

/// The `SliceBound` that stands for a std `Bound`.
pub open spec fn slice_bound(b: Bound<usize>) -> SliceBound {
    match b {
        Bound::Included(n) => SliceBound::Included(n),
        Bound::Excluded(n) => SliceBound::Excluded(n),
        Bound::Unbounded => SliceBound::Unbounded,
    }
}

fn to_slice_bound(b: &Bound<usize>) -> (r: SliceBound)
    ensures
        r == slice_bound(*b),
{
    match b {
        Bound::Included(n) => SliceBound::Included(*n),
        Bound::Excluded(n) => SliceBound::Excluded(*n),
        Bound::Unbounded => SliceBound::Unbounded,
    }
}

impl ByteRange for (Bound<usize>, Bound<usize>) {
    open spec fn lower(&self) -> SliceBound {
        slice_bound(self.0)
    }

    open spec fn upper(&self) -> SliceBound {
        slice_bound(self.1)
    }

    fn start_bound(&self) -> (b: SliceBound) {
        to_slice_bound(&self.0)
    }

    fn end_bound(&self) -> (b: SliceBound) {
        to_slice_bound(&self.1)
    }
}

impl ByteRange for RangeFull {
    open spec fn lower(&self) -> SliceBound {
        SliceBound::Unbounded
    }

    open spec fn upper(&self) -> SliceBound {
        SliceBound::Unbounded
    }

    fn start_bound(&self) -> (b: SliceBound) {
        SliceBound::Unbounded
    }

    fn end_bound(&self) -> (b: SliceBound) {
        SliceBound::Unbounded
    }
}

impl ByteRange for Range<usize> {
    open spec fn lower(&self) -> SliceBound {
        SliceBound::Included(self.start)
    }

    open spec fn upper(&self) -> SliceBound {
        SliceBound::Excluded(self.end)
    }

    fn start_bound(&self) -> (b: SliceBound) {
        SliceBound::Included(self.start)
    }

    fn end_bound(&self) -> (b: SliceBound) {
        SliceBound::Excluded(self.end)
    }
}

impl ByteRange for RangeInclusive<usize> {
    open spec fn lower(&self) -> SliceBound {
        SliceBound::Included(self@.start)
    }

    open spec fn upper(&self) -> SliceBound {
        if self@.exhausted {
            SliceBound::Excluded(self@.end)
        } else {
            SliceBound::Included(self@.end)
        }
    }

    fn start_bound(&self) -> (b: SliceBound) {
        SliceBound::Included(inclusive_start(self))
    }

    fn end_bound(&self) -> (b: SliceBound) {
        inclusive_end_bound(self)
    }
}

impl ByteRange for RangeFrom<usize> {
    open spec fn lower(&self) -> SliceBound {
        SliceBound::Included(self.start)
    }

    open spec fn upper(&self) -> SliceBound {
        SliceBound::Unbounded
    }

    fn start_bound(&self) -> (b: SliceBound) {
        SliceBound::Included(self.start)
    }

    fn end_bound(&self) -> (b: SliceBound) {
        SliceBound::Unbounded
    }
}

impl ByteRange for RangeTo<usize> {
    open spec fn lower(&self) -> SliceBound {
        SliceBound::Unbounded
    }

    open spec fn upper(&self) -> SliceBound {
        SliceBound::Excluded(self.end)
    }

    fn start_bound(&self) -> (b: SliceBound) {
        SliceBound::Unbounded
    }

    fn end_bound(&self) -> (b: SliceBound) {
        SliceBound::Excluded(self.end)
    }
}

impl ByteRange for RangeToInclusive<usize> {
    open spec fn lower(&self) -> SliceBound {
        SliceBound::Unbounded
    }

    open spec fn upper(&self) -> SliceBound {
        SliceBound::Included(self.end)
    }

    fn start_bound(&self) -> (b: SliceBound) {
        SliceBound::Unbounded
    }

    fn end_bound(&self) -> (b: SliceBound) {
        SliceBound::Included(self.end)
    }
}

/// A pair of bounds admits exactly the offsets that its first component admits from
/// below and its second from above.
pub proof fn lemma_pair_admits(range: (SliceBound, SliceBound))
    ensures
        forall|i: int|
            range_admits(range, i) <==> (above_lower(range.0, i) && below_upper(range.1, i)),
{
}

/// A pair of std bounds admits `i` exactly as `RangeBounds::contains` does: from
/// `n` on for `Included(n)` below, after `n` for `Excluded(n)` below, up to `n` for
/// `Included(n)` above, before `n` for `Excluded(n)` above.
pub proof fn lemma_std_pair_admits(range: (Bound<usize>, Bound<usize>))
    ensures
        forall|i: int|
            range_admits(range, i) <==> ((match range.0 {
                Bound::Included(n) => n <= i,
                Bound::Excluded(n) => n < i,
                Bound::Unbounded => true,
            }) && (match range.1 {
                Bound::Included(n) => i <= n,
                Bound::Excluded(n) => i < n,
                Bound::Unbounded => true,
            })),
{
}

/// `..` admits every offset.
pub proof fn lemma_full_admits(range: RangeFull)
    ensures
        forall|i: int| range_admits(range, i),
{
}

/// `a..b` admits the offsets from `a` on and before `b`.
pub proof fn lemma_range_admits(range: Range<usize>)
    ensures
        forall|i: int| range_admits(range, i) <==> range.start <= i < range.end,
{
}

/// `a..` admits the offsets from `a` on.
pub proof fn lemma_range_from_admits(range: RangeFrom<usize>)
    ensures
        forall|i: int| range_admits(range, i) <==> range.start <= i,
{
}

/// `..b` admits the offsets before `b`.
pub proof fn lemma_range_to_admits(range: RangeTo<usize>)
    ensures
        forall|i: int| range_admits(range, i) <==> i < range.end,
{
}

/// `..=b` admits the offsets up to and with `b`.
pub proof fn lemma_range_to_inclusive_admits(range: RangeToInclusive<usize>)
    ensures
        forall|i: int| range_admits(range, i) <==> i <= range.end,
{
}

/// `a..=b`, as built, admits the offsets from `a` on, up to and with `b`; once it has
/// been iterated to exhaustion, `b` itself no longer.
pub proof fn lemma_range_inclusive_admits(range: RangeInclusive<usize>)
    ensures
        forall|i: int|
            range_admits(range, i) <==> (range@.start <= i && if range@.exhausted {
                i < range@.end
            } else {
                i <= range@.end
            }),
{
}

} // verus!
