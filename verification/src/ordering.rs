use vstd::prelude::*;

use core::cmp::Ordering;

use crate::equivalence::{Equivalent, ViewAs};
use crate::native::NativeOrd;

verus! {

/// Key ordering trait.
///
/// This trait allows ordered map lookup to be customized: it extends
/// [`Equivalent`] with a three-way comparison between a stored key and a
/// query value of a possibly different type. It has one blanket
/// implementation that combines the view relation with the query type's
/// native ordering, just as an ordered map does when it accepts a borrowed
/// string slice to look up an owned string key.
///
/// # Contract
///
/// For a fixed query type, every implementor must produce a strict total
/// order, or ordered containers relying on it will silently misbehave. The
/// one part of that contract that relates this trait to [`Equivalent`] is
/// proved here for every implementor: `compare_spec` returns `Equal`
/// exactly when `equiv_spec` holds (see [`Comparable::lemma_compare_equivalent`]).
pub trait Comparable<Q: ?Sized>: Equivalent<Q> {
    /// What the three-way comparison means for this pair of types.
    spec fn compare_spec(&self, key: &Q) -> Ordering;

    /// The comparison agrees with equivalence: `Equal` exactly when the
    /// two values are equivalent.
    proof fn lemma_compare_equivalent(&self, key: &Q)
        ensures
            self.compare_spec(key) == Ordering::Equal <==> self.equiv_spec(key),
    ;

    /// Compare self to `key` and return their ordering.
    fn compare(&self, key: &Q) -> (r: Ordering)
        ensures
            r == self.compare_spec(key),
    ;
}

impl<K: ViewAs<Q>, Q: NativeOrd> Comparable<Q> for K {
    open spec fn compare_spec(&self, key: &Q) -> Ordering {
        self.view_spec().native_cmp(key)
    }

    proof fn lemma_compare_equivalent(&self, key: &Q) {
        Q::lemma_native_cmp_equal(&self.view_spec(), key);
    }

    fn compare(&self, key: &Q) -> (r: Ordering) {
        self.view_as().native_compare(key)
    }
}

/// Law: the default (automatic) ordering over any natively ordered type is
/// a total order. The comparison of any pair yields one (and, the result
/// being a single value, exactly one) of the three outcomes; a value
/// compares `Equal` to itself; flipping the operands exchanges `Less` and
/// `Greater`; and `Less` is transitive.
pub proof fn lemma_default_order_total<T: NativeOrd>(a: &T, b: &T, c: &T)
    ensures
        a.compare_spec(b) == Ordering::Less || a.compare_spec(b) == Ordering::Equal
            || a.compare_spec(b) == Ordering::Greater,
        a.compare_spec(a) == Ordering::Equal,
        a.compare_spec(b) == Ordering::Less <==> b.compare_spec(a) == Ordering::Greater,
        (a.compare_spec(b) == Ordering::Less && b.compare_spec(c) == Ordering::Less)
            ==> a.compare_spec(c) == Ordering::Less,
{
    T::lemma_native_eq_reflexive(a);
    T::lemma_native_cmp_equal(a, a);
    T::lemma_native_cmp_antisymmetric(a, b);
    if a.compare_spec(b) == Ordering::Less && b.compare_spec(c) == Ordering::Less {
        T::lemma_native_cmp_transitive(a, b, c);
    }
}

} // verus!
