use equivalent::{Bound, ComparableRangeBounds};

#[test]
fn closed_range_contains_its_endpoints() {
    let range = (Bound::Included(3i32), Bound::Included(7i32));
    assert!(!range.compare_contains(&2i32));
    assert!(range.compare_contains(&3i32));
    assert!(range.compare_contains(&4i32));
    assert!(range.compare_contains(&7i32));
    assert!(!range.compare_contains(&8i32));
}

#[test]
fn open_range_excludes_its_endpoints() {
    let range = (Bound::Excluded(3i32), Bound::Excluded(7i32));
    assert!(!range.compare_contains(&3i32));
    assert!(range.compare_contains(&4i32));
    assert!(range.compare_contains(&6i32));
    assert!(!range.compare_contains(&7i32));
}

#[test]
fn degenerate_excluded_range_is_empty() {
    let range = (Bound::Excluded(5i32), Bound::Excluded(5i32));
    assert!(!range.compare_contains(&5i32));
    for x in [i32::MIN, -5, 0, 4, 5, 6, i32::MAX] {
        assert!(!range.compare_contains(&x));
    }
}

#[test]
fn fully_unbounded_range_contains_everything() {
    let range: (Bound<i32>, Bound<i32>) = (Bound::Unbounded, Bound::Unbounded);
    for x in [i32::MIN, -1, 0, 1, i32::MAX] {
        assert!(range.compare_contains(&x));
    }
    let wide: (Bound<u64>, Bound<u64>) = (Bound::Unbounded, Bound::Unbounded);
    assert!(wide.compare_contains(&u64::MIN));
    assert!(wide.compare_contains(&u64::MAX));
}

#[test]
fn degenerate_mixed_ranges_are_empty() {
    let include_then_exclude = (Bound::Included(3i32), Bound::Excluded(3i32));
    let exclude_then_include = (Bound::Excluded(3i32), Bound::Included(3i32));
    for x in [i32::MIN, 2, 3, 4, i32::MAX] {
        assert!(!include_then_exclude.compare_contains(&x));
        assert!(!exclude_then_include.compare_contains(&x));
    }
}

#[test]
fn half_bounded_ranges() {
    let from_four = (Bound::Included(4i32), Bound::Unbounded);
    assert!(!from_four.compare_contains(&3i32));
    assert!(from_four.compare_contains(&4i32));
    assert!(from_four.compare_contains(&i32::MAX));
    let below_four = (Bound::Unbounded, Bound::Excluded(4i32));
    assert!(below_four.compare_contains(&i32::MIN));
    assert!(below_four.compare_contains(&3i32));
    assert!(!below_four.compare_contains(&4i32));
}

#[test]
fn half_open_std_range_contains() {
    let range = 3i32..7i32;
    assert!(!range.compare_contains(&2i32));
    assert!(range.compare_contains(&3i32));
    assert!(range.compare_contains(&6i32));
    assert!(!range.compare_contains(&7i32));
}

#[test]
fn range_of_owned_text_bounds() {
    let range = (
        Bound::Included(String::from("b")),
        Bound::Excluded(String::from("d")),
    );
    assert!(!range.compare_contains(&String::from("a")));
    assert!(range.compare_contains(&String::from("b")));
    assert!(range.compare_contains(&String::from("c")));
    assert!(range.compare_contains(&String::from("cz")));
    assert!(!range.compare_contains(&String::from("d")));
}
