use vstd::prelude::*;

use core::cmp::Ordering;

verus! {

/// Native equality capability of a query type: the type's own equality
/// test, together with its exact mathematical meaning.
///
/// A type with this capability can stand on the query side of the default
/// (automatic) equivalence relation. An implementor that is also used as a
/// hashable key must hash identically to every value it reports equal to;
/// that obligation cannot be checked here and rests on the implementor.
pub trait NativeEq: Eq + Sized {
    /// What the type's own equality test means.
    spec fn native_eq(&self, other: &Self) -> bool;

    /// Native equality is reflexive.
    proof fn lemma_native_eq_reflexive(x: &Self)
        ensures
            x.native_eq(x),
    ;

    /// The type's own equality test.
    fn native_equals(&self, other: &Self) -> (r: bool)
        ensures
            r == self.native_eq(other),
    ;
}

/// Native ordering capability of a query type: the type's own three-way
/// comparison, together with its exact mathematical meaning.
///
/// The comparison must be a strict total order that agrees with the native
/// equality of the same type: `Equal` exactly when the values are equal,
/// `Less` exactly when the flipped comparison is `Greater`, and `Less`
/// transitive.
pub trait NativeOrd: NativeEq + Ord {
    /// What the type's own three-way comparison means.
    spec fn native_cmp(&self, other: &Self) -> Ordering;

    /// `Equal` agrees exactly with native equality.
    proof fn lemma_native_cmp_equal(a: &Self, b: &Self)
        ensures
            a.native_cmp(b) == Ordering::Equal <==> a.native_eq(b),
    ;

    /// Flipping the operands flips `Less` and `Greater`.
    proof fn lemma_native_cmp_antisymmetric(a: &Self, b: &Self)
        ensures
            a.native_cmp(b) == Ordering::Less <==> b.native_cmp(a) == Ordering::Greater,
    ;

    /// `Less` is transitive.
    proof fn lemma_native_cmp_transitive(a: &Self, b: &Self, c: &Self)
        requires
            a.native_cmp(b) == Ordering::Less,
            b.native_cmp(c) == Ordering::Less,
        ensures
            a.native_cmp(c) == Ordering::Less,
    ;

    /// The type's own three-way comparison.
    fn native_compare(&self, other: &Self) -> (r: Ordering)
        ensures
            r == self.native_cmp(other),
    ;
}

impl NativeEq for u8 {
    open spec fn native_eq(&self, other: &u8) -> bool {
        *self == *other
    }

    proof fn lemma_native_eq_reflexive(x: &u8) {
    }

    fn native_equals(&self, other: &u8) -> (r: bool) {
        *self == *other
    }
}

impl NativeOrd for u8 {
    open spec fn native_cmp(&self, other: &u8) -> Ordering {
        if *self < *other {
            Ordering::Less
        } else if *self > *other {
            Ordering::Greater
        } else {
            Ordering::Equal
        }
    }

    proof fn lemma_native_cmp_equal(a: &u8, b: &u8) {
    }

    proof fn lemma_native_cmp_antisymmetric(a: &u8, b: &u8) {
    }

    proof fn lemma_native_cmp_transitive(a: &u8, b: &u8, c: &u8) {
    }

    fn native_compare(&self, other: &u8) -> (r: Ordering) {
        self.cmp(other)
    }
}

impl NativeEq for u16 {
    open spec fn native_eq(&self, other: &u16) -> bool {
        *self == *other
    }

    proof fn lemma_native_eq_reflexive(x: &u16) {
    }

    fn native_equals(&self, other: &u16) -> (r: bool) {
        *self == *other
    }
}

impl NativeOrd for u16 {
    open spec fn native_cmp(&self, other: &u16) -> Ordering {
        if *self < *other {
            Ordering::Less
        } else if *self > *other {
            Ordering::Greater
        } else {
            Ordering::Equal
        }
    }

    proof fn lemma_native_cmp_equal(a: &u16, b: &u16) {
    }

    proof fn lemma_native_cmp_antisymmetric(a: &u16, b: &u16) {
    }

    proof fn lemma_native_cmp_transitive(a: &u16, b: &u16, c: &u16) {
    }

    fn native_compare(&self, other: &u16) -> (r: Ordering) {
        self.cmp(other)
    }
}

impl NativeEq for u32 {
    open spec fn native_eq(&self, other: &u32) -> bool {
        *self == *other
    }

    proof fn lemma_native_eq_reflexive(x: &u32) {
    }

    fn native_equals(&self, other: &u32) -> (r: bool) {
        *self == *other
    }
}

impl NativeOrd for u32 {
    open spec fn native_cmp(&self, other: &u32) -> Ordering {
        if *self < *other {
            Ordering::Less
        } else if *self > *other {
            Ordering::Greater
        } else {
            Ordering::Equal
        }
    }

    proof fn lemma_native_cmp_equal(a: &u32, b: &u32) {
    }

    proof fn lemma_native_cmp_antisymmetric(a: &u32, b: &u32) {
    }

    proof fn lemma_native_cmp_transitive(a: &u32, b: &u32, c: &u32) {
    }

    fn native_compare(&self, other: &u32) -> (r: Ordering) {
        self.cmp(other)
    }
}

impl NativeEq for u64 {
    open spec fn native_eq(&self, other: &u64) -> bool {
        *self == *other
    }

    proof fn lemma_native_eq_reflexive(x: &u64) {
    }

    fn native_equals(&self, other: &u64) -> (r: bool) {
        *self == *other
    }
}

impl NativeOrd for u64 {
    open spec fn native_cmp(&self, other: &u64) -> Ordering {
        if *self < *other {
            Ordering::Less
        } else if *self > *other {
            Ordering::Greater
        } else {
            Ordering::Equal
        }
    }

    proof fn lemma_native_cmp_equal(a: &u64, b: &u64) {
    }

    proof fn lemma_native_cmp_antisymmetric(a: &u64, b: &u64) {
    }

    proof fn lemma_native_cmp_transitive(a: &u64, b: &u64, c: &u64) {
    }

    fn native_compare(&self, other: &u64) -> (r: Ordering) {
        self.cmp(other)
    }
}

impl NativeEq for u128 {
    open spec fn native_eq(&self, other: &u128) -> bool {
        *self == *other
    }

    proof fn lemma_native_eq_reflexive(x: &u128) {
    }

    fn native_equals(&self, other: &u128) -> (r: bool) {
        *self == *other
    }
}

impl NativeOrd for u128 {
    open spec fn native_cmp(&self, other: &u128) -> Ordering {
        if *self < *other {
            Ordering::Less
        } else if *self > *other {
            Ordering::Greater
        } else {
            Ordering::Equal
        }
    }

    proof fn lemma_native_cmp_equal(a: &u128, b: &u128) {
    }

    proof fn lemma_native_cmp_antisymmetric(a: &u128, b: &u128) {
    }

    proof fn lemma_native_cmp_transitive(a: &u128, b: &u128, c: &u128) {
    }

    fn native_compare(&self, other: &u128) -> (r: Ordering) {
        self.cmp(other)
    }
}

impl NativeEq for usize {
    open spec fn native_eq(&self, other: &usize) -> bool {
        *self == *other
    }

    proof fn lemma_native_eq_reflexive(x: &usize) {
    }

    fn native_equals(&self, other: &usize) -> (r: bool) {
        *self == *other
    }
}

impl NativeOrd for usize {
    open spec fn native_cmp(&self, other: &usize) -> Ordering {
        if *self < *other {
            Ordering::Less
        } else if *self > *other {
            Ordering::Greater
        } else {
            Ordering::Equal
        }
    }

    proof fn lemma_native_cmp_equal(a: &usize, b: &usize) {
    }

    proof fn lemma_native_cmp_antisymmetric(a: &usize, b: &usize) {
    }

    proof fn lemma_native_cmp_transitive(a: &usize, b: &usize, c: &usize) {
    }

    fn native_compare(&self, other: &usize) -> (r: Ordering) {
        self.cmp(other)
    }
}

impl NativeEq for i8 {
    open spec fn native_eq(&self, other: &i8) -> bool {
        *self == *other
    }

    proof fn lemma_native_eq_reflexive(x: &i8) {
    }

    fn native_equals(&self, other: &i8) -> (r: bool) {
        *self == *other
    }
}

impl NativeOrd for i8 {
    open spec fn native_cmp(&self, other: &i8) -> Ordering {
        if *self < *other {
            Ordering::Less
        } else if *self > *other {
            Ordering::Greater
        } else {
            Ordering::Equal
        }
    }

    proof fn lemma_native_cmp_equal(a: &i8, b: &i8) {
    }

    proof fn lemma_native_cmp_antisymmetric(a: &i8, b: &i8) {
    }

    proof fn lemma_native_cmp_transitive(a: &i8, b: &i8, c: &i8) {
    }

    fn native_compare(&self, other: &i8) -> (r: Ordering) {
        self.cmp(other)
    }
}

impl NativeEq for i16 {
    open spec fn native_eq(&self, other: &i16) -> bool {
        *self == *other
    }

    proof fn lemma_native_eq_reflexive(x: &i16) {
    }

    fn native_equals(&self, other: &i16) -> (r: bool) {
        *self == *other
    }
}

impl NativeOrd for i16 {
    open spec fn native_cmp(&self, other: &i16) -> Ordering {
        if *self < *other {
            Ordering::Less
        } else if *self > *other {
            Ordering::Greater
        } else {
            Ordering::Equal
        }
    }

    proof fn lemma_native_cmp_equal(a: &i16, b: &i16) {
    }

    proof fn lemma_native_cmp_antisymmetric(a: &i16, b: &i16) {
    }

    proof fn lemma_native_cmp_transitive(a: &i16, b: &i16, c: &i16) {
    }

    fn native_compare(&self, other: &i16) -> (r: Ordering) {
        self.cmp(other)
    }
}

impl NativeEq for i32 {
    open spec fn native_eq(&self, other: &i32) -> bool {
        *self == *other
    }

    proof fn lemma_native_eq_reflexive(x: &i32) {
    }

    fn native_equals(&self, other: &i32) -> (r: bool) {
        *self == *other
    }
}

impl NativeOrd for i32 {
    open spec fn native_cmp(&self, other: &i32) -> Ordering {
        if *self < *other {
            Ordering::Less
        } else if *self > *other {
            Ordering::Greater
        } else {
            Ordering::Equal
        }
    }

    proof fn lemma_native_cmp_equal(a: &i32, b: &i32) {
    }

    proof fn lemma_native_cmp_antisymmetric(a: &i32, b: &i32) {
    }

    proof fn lemma_native_cmp_transitive(a: &i32, b: &i32, c: &i32) {
    }

    fn native_compare(&self, other: &i32) -> (r: Ordering) {
        self.cmp(other)
    }
}

impl NativeEq for i64 {
    open spec fn native_eq(&self, other: &i64) -> bool {
        *self == *other
    }

    proof fn lemma_native_eq_reflexive(x: &i64) {
    }

    fn native_equals(&self, other: &i64) -> (r: bool) {
        *self == *other
    }
}

impl NativeOrd for i64 {
    open spec fn native_cmp(&self, other: &i64) -> Ordering {
        if *self < *other {
            Ordering::Less
        } else if *self > *other {
            Ordering::Greater
        } else {
            Ordering::Equal
        }
    }

    proof fn lemma_native_cmp_equal(a: &i64, b: &i64) {
    }

    proof fn lemma_native_cmp_antisymmetric(a: &i64, b: &i64) {
    }

    proof fn lemma_native_cmp_transitive(a: &i64, b: &i64, c: &i64) {
    }

    fn native_compare(&self, other: &i64) -> (r: Ordering) {
        self.cmp(other)
    }
}

impl NativeEq for i128 {
    open spec fn native_eq(&self, other: &i128) -> bool {
        *self == *other
    }

    proof fn lemma_native_eq_reflexive(x: &i128) {
    }

    fn native_equals(&self, other: &i128) -> (r: bool) {
        *self == *other
    }
}

impl NativeOrd for i128 {
    open spec fn native_cmp(&self, other: &i128) -> Ordering {
        if *self < *other {
            Ordering::Less
        } else if *self > *other {
            Ordering::Greater
        } else {
            Ordering::Equal
        }
    }

    proof fn lemma_native_cmp_equal(a: &i128, b: &i128) {
    }

    proof fn lemma_native_cmp_antisymmetric(a: &i128, b: &i128) {
    }

    proof fn lemma_native_cmp_transitive(a: &i128, b: &i128, c: &i128) {
    }

    fn native_compare(&self, other: &i128) -> (r: Ordering) {
        self.cmp(other)
    }
}

impl NativeEq for isize {
    open spec fn native_eq(&self, other: &isize) -> bool {
        *self == *other
    }

    proof fn lemma_native_eq_reflexive(x: &isize) {
    }

    fn native_equals(&self, other: &isize) -> (r: bool) {
        *self == *other
    }
}

impl NativeOrd for isize {
    open spec fn native_cmp(&self, other: &isize) -> Ordering {
        if *self < *other {
            Ordering::Less
        } else if *self > *other {
            Ordering::Greater
        } else {
            Ordering::Equal
        }
    }

    proof fn lemma_native_cmp_equal(a: &isize, b: &isize) {
    }

    proof fn lemma_native_cmp_antisymmetric(a: &isize, b: &isize) {
    }

    proof fn lemma_native_cmp_transitive(a: &isize, b: &isize, c: &isize) {
    }

    fn native_compare(&self, other: &isize) -> (r: Ordering) {
        self.cmp(other)
    }
}

impl NativeEq for bool {
    open spec fn native_eq(&self, other: &bool) -> bool {
        *self == *other
    }

    proof fn lemma_native_eq_reflexive(x: &bool) {
    }

    fn native_equals(&self, other: &bool) -> (r: bool) {
        *self == *other
    }
}

impl NativeOrd for bool {
    open spec fn native_cmp(&self, other: &bool) -> Ordering {
        if !*self && *other {
            Ordering::Less
        } else if *self && !*other {
            Ordering::Greater
        } else {
            Ordering::Equal
        }
    }

    proof fn lemma_native_cmp_equal(a: &bool, b: &bool) {
    }

    proof fn lemma_native_cmp_antisymmetric(a: &bool, b: &bool) {
    }

    proof fn lemma_native_cmp_transitive(a: &bool, b: &bool, c: &bool) {
    }

    fn native_compare(&self, other: &bool) -> (r: Ordering) {
        if !*self && *other {
            Ordering::Less
        } else if *self && !*other {
            Ordering::Greater
        } else {
            Ordering::Equal
        }
    }
}

impl NativeEq for char {
    open spec fn native_eq(&self, other: &char) -> bool {
        *self == *other
    }

    proof fn lemma_native_eq_reflexive(x: &char) {
    }

    fn native_equals(&self, other: &char) -> (r: bool) {
        *self == *other
    }
}

impl NativeOrd for char {
    open spec fn native_cmp(&self, other: &char) -> Ordering {
        if *self < *other {
            Ordering::Less
        } else if *other < *self {
            Ordering::Greater
        } else {
            Ordering::Equal
        }
    }

    proof fn lemma_native_cmp_equal(a: &char, b: &char) {
    }

    proof fn lemma_native_cmp_antisymmetric(a: &char, b: &char) {
    }

    proof fn lemma_native_cmp_transitive(a: &char, b: &char, c: &char) {
    }

    fn native_compare(&self, other: &char) -> (r: Ordering) {
        if *self < *other {
            Ordering::Less
        } else if *other < *self {
            Ordering::Greater
        } else {
            Ordering::Equal
        }
    }
}

} // verus!
