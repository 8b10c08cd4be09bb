//! Generalized key equivalence and ordering for heterogeneous lookups.
//!
//! A lookup container normally demands a query of the very type it stores.
//! The traits here relax that: [`Equivalent`] is an equivalence relation
//! between a stored key and a query value of a possibly different type,
//! [`Comparable`] extends it with a three-way comparison that is proved to
//! agree with it, and [`ComparableRangeBounds`] turns any pair of endpoint
//! bounds over a query type into a membership test for anything comparable
//! to that type. Blanket implementations recover the ordinary same-type
//! behaviour from a type's native equality and ordering, so a caller only
//! opts in when the query type differs from the stored type — the
//! canonical case being a map with owned string keys searched with a
//! borrowed string slice.

mod equivalence;
mod native;
mod ordering;
mod range;
mod text;

pub use equivalence::{lemma_default_equivalence_is_native_eq, Equivalent, ViewAs};
pub use native::{NativeEq, NativeOrd};
pub use ordering::{lemma_default_order_total, Comparable};
pub use range::{
    lemma_excluded_point_range_empty, lemma_included_point_range_contains,
    lemma_mixed_point_range_empty, lemma_unbounded_range_contains_all, deref_bound,
    lower_bound_allows, range_contains, upper_bound_allows, Bound, ComparableRangeBounds,
};
pub use text::{compare_str, lemma_lex_cmp_equal, lemma_lex_cmp_flip, lemma_lex_cmp_transitive, lex_cmp};
