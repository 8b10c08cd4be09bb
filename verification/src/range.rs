use vstd::prelude::*;

use core::cmp::Ordering;

use crate::ordering::Comparable;

verus! {

/// One endpoint of a range over the query type `Q`: part of the range
/// (`Included`), outside it (`Excluded`), or absent (`Unbounded`).
#[derive(Clone, Copy)]
pub enum Bound<Q> {
    /// The endpoint belongs to the range.
    Included(Q),
    /// The endpoint does not belong to the range.
    Excluded(Q),
    /// The range has no endpoint on this side.
    Unbounded,
}

/// The bound obtained by dereferencing the payload of a bound of `&Q`.
pub open spec fn deref_bound<Q>(b: Bound<&Q>) -> Bound<Q> {
    match b {
        Bound::Included(q) => Bound::Included(*q),
        Bound::Excluded(q) => Bound::Excluded(*q),
        Bound::Unbounded => Bound::Unbounded,
    }
}

/// Whether `item` lies on the admitted side of a range's lower endpoint:
/// anywhere for `Unbounded`, not below it for `Included`, strictly above it
/// for `Excluded`.
pub open spec fn lower_bound_allows<K: Comparable<Q>, Q>(item: K, start: Bound<Q>) -> bool {
    match start {
        Bound::Included(s) => item.compare_spec(&s) != Ordering::Less,
        Bound::Excluded(s) => item.compare_spec(&s) == Ordering::Greater,
        Bound::Unbounded => true,
    }
}

/// Whether `item` lies on the admitted side of a range's upper endpoint:
/// anywhere for `Unbounded`, not above it for `Included`, strictly below it
/// for `Excluded`.
pub open spec fn upper_bound_allows<K: Comparable<Q>, Q>(item: K, end: Bound<Q>) -> bool {
    match end {
        Bound::Included(e) => item.compare_spec(&e) != Ordering::Greater,
        Bound::Excluded(e) => item.compare_spec(&e) == Ordering::Less,
        Bound::Unbounded => true,
    }
}

/// Whether `item` is contained in the range from `start` to `end`: both
/// endpoint conditions must admit it.
pub open spec fn range_contains<K: Comparable<Q>, Q>(start: Bound<Q>, end: Bound<Q>, item: K) -> bool {
    lower_bound_allows(item, start) && upper_bound_allows(item, end)
}

/// A range-like value over the query type `Q`: a pair of endpoint bounds,
/// and, derived from those alone, a membership test for any item whose type
/// is [`Comparable`] to `Q`.
pub trait ComparableRangeBounds<Q> {
    /// The lower endpoint of the range.
    spec fn start_bound_spec(&self) -> Bound<Q>;

    /// The upper endpoint of the range.
    spec fn end_bound_spec(&self) -> Bound<Q>;

    /// The lower endpoint of the range, by reference.
    fn start_bound(&self) -> (b: Bound<&Q>)
        ensures
            deref_bound(b) == self.start_bound_spec(),
    ;

    /// The upper endpoint of the range, by reference.
    fn end_bound(&self) -> (b: Bound<&Q>)
        ensures
            deref_bound(b) == self.end_bound_spec(),
    ;

    /// Returns `true` if `item` is contained in the range.
    fn compare_contains<K: Comparable<Q>>(&self, item: &K) -> (r: bool)
        ensures
            r == range_contains(self.start_bound_spec(), self.end_bound_spec(), *item),
    {
        let lower_ok = match self.start_bound() {
            Bound::Included(start) => match item.compare(start) {
                Ordering::Less => false,
                _ => true,
            },
            Bound::Excluded(start) => match item.compare(start) {
                Ordering::Greater => true,
                _ => false,
            },
            Bound::Unbounded => true,
        };
        let upper_ok = match self.end_bound() {
            Bound::Included(end) => match item.compare(end) {
                Ordering::Greater => false,
                _ => true,
            },
            Bound::Excluded(end) => match item.compare(end) {
                Ordering::Less => true,
                _ => false,
            },
            Bound::Unbounded => true,
        };
        lower_ok && upper_ok
    }
}

impl<Q> ComparableRangeBounds<Q> for (Bound<Q>, Bound<Q>) {
    open spec fn start_bound_spec(&self) -> Bound<Q> {
        self.0
    }

    open spec fn end_bound_spec(&self) -> Bound<Q> {
        self.1
    }

    fn start_bound(&self) -> (b: Bound<&Q>) {
        match &self.0 {
            Bound::Included(q) => Bound::Included(q),
            Bound::Excluded(q) => Bound::Excluded(q),
            Bound::Unbounded => Bound::Unbounded,
        }
    }

    fn end_bound(&self) -> (b: Bound<&Q>) {
        match &self.1 {
            Bound::Included(q) => Bound::Included(q),
            Bound::Excluded(q) => Bound::Excluded(q),
            Bound::Unbounded => Bound::Unbounded,
        }
    }
}

impl<Q> ComparableRangeBounds<Q> for core::ops::Range<Q> {
    open spec fn start_bound_spec(&self) -> Bound<Q> {
        Bound::Included(self.start)
    }

    open spec fn end_bound_spec(&self) -> Bound<Q> {
        Bound::Excluded(self.end)
    }

    fn start_bound(&self) -> (b: Bound<&Q>) {
        Bound::Included(&self.start)
    }

    fn end_bound(&self) -> (b: Bound<&Q>) {
        Bound::Excluded(&self.end)
    }
}

/// Law: a range whose two endpoints exclude the same query value contains
/// nothing, since no item can be at once strictly above and strictly below
/// that value.
pub proof fn lemma_excluded_point_range_empty<K: Comparable<Q>, Q>(q: Q, item: K)
    ensures
        !range_contains(Bound::Excluded(q), Bound::Excluded(q), item),
{
}

/// Law: a degenerate range that includes the same query value on one side
/// and excludes it on the other contains nothing, whichever side excludes.
pub proof fn lemma_mixed_point_range_empty<K: Comparable<Q>, Q>(q: Q, item: K)
    ensures
        !range_contains(Bound::Included(q), Bound::Excluded(q), item),
        !range_contains(Bound::Excluded(q), Bound::Included(q), item),
{
}

/// Law: a range that includes the same query value on both sides contains
/// exactly the items that compare `Equal` to that value.
pub proof fn lemma_included_point_range_contains<K: Comparable<Q>, Q>(q: Q, item: K)
    ensures
        range_contains(Bound::Included(q), Bound::Included(q), item) <==> item.compare_spec(
            &q,
        ) == Ordering::Equal,
{
}

/// Law: a range unbounded on both sides contains every item.
pub proof fn lemma_unbounded_range_contains_all<K: Comparable<Q>, Q>(item: K)
    ensures
        range_contains(Bound::Unbounded, Bound::Unbounded, item),
{
}

} // verus!
