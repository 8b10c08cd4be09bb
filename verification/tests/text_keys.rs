use equivalent::{compare_str, Comparable, Equivalent};
use std::cmp::Ordering;
use std::collections::HashMap;

#[test]
fn owned_text_key_queried_with_borrowed_view() {
    let owned = String::from("hello");
    assert!(owned.equivalent("hello"));
    assert_eq!(owned.compare("hello"), Ordering::Equal);
    assert!(!owned.equivalent("world"));
    assert_ne!(owned.compare("world"), Ordering::Equal);

    let mut table: HashMap<String, u32> = HashMap::new();
    table.insert(String::from("hello"), 1);
    assert_eq!(table.get("hello"), Some(&1));
    assert_eq!(table.get("world"), None);
}

#[test]
fn borrowed_view_ordering_matches_native_text_order() {
    let stored = String::from("carrot");
    assert_eq!(stored.compare("carrots"), Ordering::Less);
    assert_eq!(stored.compare("carrot"), Ordering::Equal);
    assert_eq!(stored.compare("carro"), Ordering::Greater);
    assert_eq!(stored.compare("cab"), Ordering::Greater);
    assert_eq!(stored.compare("dog"), Ordering::Less);
    assert_eq!(stored.compare(""), Ordering::Greater);
}

#[test]
fn compare_str_is_lexicographic_by_character() {
    assert_eq!(compare_str("", ""), Ordering::Equal);
    assert_eq!(compare_str("", "a"), Ordering::Less);
    assert_eq!(compare_str("a", ""), Ordering::Greater);
    assert_eq!(compare_str("abc", "abd"), Ordering::Less);
    assert_eq!(compare_str("abd", "abc"), Ordering::Greater);
    assert_eq!(compare_str("ab", "abc"), Ordering::Less);
    assert_eq!(compare_str("abc", "abc"), Ordering::Equal);
    assert_eq!(compare_str("abc", "abc"), "abc".cmp("abc"));
    assert_eq!(compare_str("zebra", "apple"), "zebra".cmp("apple"));
}

#[test]
fn compare_str_agrees_with_native_order_on_multibyte_text() {
    let words = ["", "a", "ab", "b", "ba", "Ω", "ΩΩ", "á", "🦀", "a🦀"];
    for x in words {
        for y in words {
            assert_eq!(compare_str(x, y), x.cmp(y));
        }
    }
}

#[test]
fn owned_text_keys_compare_like_their_contents() {
    let a = String::from("alpha");
    let b = String::from("beta");
    assert_eq!(a.compare(&b), Ordering::Less);
    assert_eq!(b.compare(&a), Ordering::Greater);
    assert_eq!(a.compare(&String::from("alpha")), Ordering::Equal);
    assert!(a.equivalent(&String::from("alpha")));
    assert!(!a.equivalent(&b));
}
