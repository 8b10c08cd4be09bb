use vstd::prelude::*;

use crate::native::NativeEq;

verus! {

/// The borrow/view relationship: a stored key can be viewed, without
/// copying, as a value of the query type `Q`.
///
/// Every type can be viewed as itself, so the default relations below come
/// for free for ordinary same-type lookups.
pub trait ViewAs<Q> {
    /// The query value that this key stands for.
    spec fn view_spec(&self) -> Q;

    /// View the key as a reference to the query type.
    fn view_as(&self) -> (r: &Q)
        ensures
            *r == self.view_spec(),
    ;
}

impl<T> ViewAs<T> for T {
    open spec fn view_spec(&self) -> T {
        *self
    }

    fn view_as(&self) -> (r: &T) {
        self
    }
}

impl<T> ViewAs<T> for Box<T> {
    open spec fn view_spec(&self) -> T {
        **self
    }

    fn view_as(&self) -> (r: &T) {
        &**self
    }
}

impl<'a, T> ViewAs<T> for &'a T {
    open spec fn view_spec(&self) -> T {
        **self
    }

    fn view_as(&self) -> (r: &T) {
        *self
    }
}

/// Key equivalence trait.
///
/// This trait allows hash table lookup to be customized: a container that
/// stores keys of one type can be searched with a query value of another
/// type, as long as the two types are related by this trait. It has one
/// blanket implementation that combines the view relation with the query
/// type's native equality, just as a hash map does when it accepts a
/// borrowed string slice to look up an owned string key.
///
/// # Contract
///
/// The implementor **must** hash like `Q`, if it is hashable: whenever
/// `equiv_spec` holds of a key and a query value, both must hash alike
/// under the consuming container's hash function. A violation silently
/// corrupts the container's bucket placement; it cannot be detected here.
pub trait Equivalent<Q: ?Sized> {
    /// What equivalence means for this pair of types.
    spec fn equiv_spec(&self, key: &Q) -> bool;

    /// Compare self to `key` and return `true` if they are equal.
    fn equivalent(&self, key: &Q) -> (r: bool)
        ensures
            r == self.equiv_spec(key),
    ;
}

impl<K: ViewAs<Q>, Q: NativeEq> Equivalent<Q> for K {
    open spec fn equiv_spec(&self, key: &Q) -> bool {
        self.view_spec().native_eq(key)
    }

    fn equivalent(&self, key: &Q) -> (r: bool) {
        self.view_as().native_equals(key)
    }
}

/// Law: for a type with native equality, the default (automatic)
/// equivalence of two values is exactly their native equality, and in
/// particular it is reflexive.
pub proof fn lemma_default_equivalence_is_native_eq<T: NativeEq>(a: &T, b: &T)
    ensures
        a.equiv_spec(b) == a.native_eq(b),
        a.equiv_spec(a),
{
    T::lemma_native_eq_reflexive(a);
}

} // verus!
