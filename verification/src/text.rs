use vstd::prelude::*;

use vstd::string::StrSliceExecFns;

use core::cmp::Ordering;

use crate::equivalence::Equivalent;
use crate::native::{NativeEq, NativeOrd};
use crate::ordering::Comparable;

verus! {

/// The lexicographic three-way comparison of two character sequences by
/// code point: the first differing position decides, and a proper prefix
/// comes before any of its extensions.
pub open spec fn lex_cmp(a: Seq<char>, b: Seq<char>) -> Ordering
    decreases a.len(),
{
    if a.len() == 0 && b.len() == 0 {
        Ordering::Equal
    } else if a.len() == 0 {
        Ordering::Less
    } else if b.len() == 0 {
        Ordering::Greater
    } else if a[0] < b[0] {
        Ordering::Less
    } else if b[0] < a[0] {
        Ordering::Greater
    } else {
        lex_cmp(a.drop_first(), b.drop_first())
    }
}

/// Law: the lexicographic comparison returns `Equal` exactly on equal
/// sequences.
pub proof fn lemma_lex_cmp_equal(a: Seq<char>, b: Seq<char>)
    ensures
        lex_cmp(a, b) == Ordering::Equal <==> a == b,
    decreases a.len(),
{
    if a.len() == 0 && b.len() == 0 {
        assert(a =~= b);
    } else if a.len() != 0 && b.len() != 0 && a[0] == b[0] {
        lemma_lex_cmp_equal(a.drop_first(), b.drop_first());
        if lex_cmp(a, b) == Ordering::Equal {
            assert forall|i: int| 0 <= i < a.len() implies a[i] == b[i] by {
                if i > 0 {
                    assert(a.drop_first()[i - 1] == a[i]);
                    assert(b.drop_first()[i - 1] == b[i]);
                }
            }
            assert(a =~= b);
        }
        if a == b {
            assert(a.drop_first() =~= b.drop_first());
        }
    }
}

/// Law: flipping the operands of the lexicographic comparison exchanges
/// `Less` and `Greater` and keeps `Equal`.
pub proof fn lemma_lex_cmp_flip(a: Seq<char>, b: Seq<char>)
    ensures
        lex_cmp(b, a) == (match lex_cmp(a, b) {
            Ordering::Less => Ordering::Greater,
            Ordering::Equal => Ordering::Equal,
            Ordering::Greater => Ordering::Less,
        }),
    decreases a.len(),
{
    if a.len() != 0 && b.len() != 0 && a[0] == b[0] {
        lemma_lex_cmp_flip(a.drop_first(), b.drop_first());
    }
}

/// Law: the lexicographic comparison is transitive in `Less`.
pub proof fn lemma_lex_cmp_transitive(a: Seq<char>, b: Seq<char>, c: Seq<char>)
    requires
        lex_cmp(a, b) == Ordering::Less,
        lex_cmp(b, c) == Ordering::Less,
    ensures
        lex_cmp(a, c) == Ordering::Less,
    decreases a.len(),
{
    if a.len() != 0 {
        if b.len() != 0 && c.len() != 0 && a[0] == b[0] && b[0] == c[0] {
            lemma_lex_cmp_transitive(a.drop_first(), b.drop_first(), c.drop_first());
        }
    }
}

/// Compare two string slices lexicographically by character, returning
/// exactly what [`lex_cmp`] says of their character sequences.
pub fn compare_str(a: &str, b: &str) -> (r: Ordering)
    ensures
        r == lex_cmp(a@, b@),
{
    let a_len = a.unicode_len();
    let b_len = b.unicode_len();
    let mut i: usize = 0;
    proof {
        assert(a@.skip(0) =~= a@);
        assert(b@.skip(0) =~= b@);
    }
    while i < a_len && i < b_len
        invariant
            i <= a_len,
            i <= b_len,
            a_len == a@.len(),
            b_len == b@.len(),
            lex_cmp(a@, b@) == lex_cmp(a@.skip(i as int), b@.skip(i as int)),
        decreases a_len - i,
    {
        let ca = a.get_char(i);
        let cb = b.get_char(i);
        proof {
            assert(a@.skip(i as int)[0] == a@[i as int]);
            assert(b@.skip(i as int)[0] == b@[i as int]);
        }
        if ca < cb {
            return Ordering::Less;
        }
        if cb < ca {
            return Ordering::Greater;
        }
        proof {
            assert(a@.skip(i as int).drop_first() =~= a@.skip(i + 1));
            assert(b@.skip(i as int).drop_first() =~= b@.skip(i + 1));
        }
        i = i + 1;
    }
    proof {
        assert(a@.skip(i as int).len() == a@.len() - i);
        assert(b@.skip(i as int).len() == b@.len() - i);
    }
    if a_len == b_len {
        Ordering::Equal
    } else if a_len < b_len {
        Ordering::Less
    } else {
        Ordering::Greater
    }
}

impl NativeEq for String {
    open spec fn native_eq(&self, other: &String) -> bool {
        self@ == other@
    }

    proof fn lemma_native_eq_reflexive(x: &String) {
    }

    fn native_equals(&self, other: &String) -> (r: bool) {
        self.eq(other)
    }
}

impl NativeOrd for String {
    open spec fn native_cmp(&self, other: &String) -> Ordering {
        lex_cmp(self@, other@)
    }

    proof fn lemma_native_cmp_equal(a: &String, b: &String) {
        lemma_lex_cmp_equal(a@, b@);
    }

    proof fn lemma_native_cmp_antisymmetric(a: &String, b: &String) {
        lemma_lex_cmp_flip(a@, b@);
    }

    proof fn lemma_native_cmp_transitive(a: &String, b: &String, c: &String) {
        lemma_lex_cmp_transitive(a@, b@, c@);
    }

    fn native_compare(&self, other: &String) -> (r: Ordering) {
        compare_str(self.as_str(), other.as_str())
    }
}

impl Equivalent<str> for String {
    open spec fn equiv_spec(&self, key: &str) -> bool {
        self@ == key@
    }

    fn equivalent(&self, key: &str) -> (r: bool) {
        let r = compare_str(self.as_str(), key);
        proof {
            lemma_lex_cmp_equal(self@, key@);
        }
        match r {
            Ordering::Equal => true,
            _ => false,
        }
    }
}

impl Comparable<str> for String {
    open spec fn compare_spec(&self, key: &str) -> Ordering {
        lex_cmp(self@, key@)
    }

    proof fn lemma_compare_equivalent(&self, key: &str) {
        lemma_lex_cmp_equal(self@, key@);
    }

    fn compare(&self, key: &str) -> (r: Ordering) {
        compare_str(self.as_str(), key)
    }
}

} // verus!

