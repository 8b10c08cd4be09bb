use equivalent::{Comparable, Equivalent};
use std::cmp::Ordering;

#[test]
fn default_equivalence_agrees_with_native_equality() {
    assert!(3u64.equivalent(&3u64));
    assert!(!3u64.equivalent(&4u64));
    assert!((-7i32).equivalent(&-7i32));
    assert!(!(-7i32).equivalent(&7i32));
    assert!(0u8.equivalent(&0u8));
    assert!(true.equivalent(&true));
    assert!(!true.equivalent(&false));
    let a = String::from("key");
    let b = String::from("key");
    let c = String::from("other");
    assert!(a.equivalent(&b));
    assert!(!a.equivalent(&c));
}

#[test]
fn default_equivalence_is_reflexive() {
    for x in [i64::MIN, -1, 0, 1, i64::MAX] {
        assert!(x.equivalent(&x));
    }
    for x in [usize::MIN, 1, usize::MAX] {
        assert!(x.equivalent(&x));
    }
}

#[test]
fn boxed_key_is_equivalent_to_its_content() {
    let boxed: Box<u64> = Box::new(5);
    assert!(boxed.equivalent(&5u64));
    assert!(!boxed.equivalent(&6u64));
    assert_eq!(boxed.compare(&4u64), Ordering::Greater);
    assert_eq!(boxed.compare(&5u64), Ordering::Equal);
    assert_eq!(boxed.compare(&6u64), Ordering::Less);
}

#[test]
fn reference_key_is_equivalent_to_its_referent() {
    let value: u32 = 9;
    let key: &u32 = &value;
    assert!(key.equivalent(&9u32));
    assert!(!key.equivalent(&8u32));
    assert_eq!(key.compare(&10u32), Ordering::Less);
}

#[test]
fn character_keys_follow_code_point_order() {
    assert!('a'.equivalent(&'a'));
    assert!(!'a'.equivalent(&'b'));
    assert_eq!('a'.compare(&'b'), Ordering::Less);
    assert_eq!('b'.compare(&'a'), Ordering::Greater);
    assert_eq!('é'.compare(&'é'), Ordering::Equal);
    assert_eq!('a'.compare(&'é'), Ordering::Less);
}

#[test]
fn ordering_agrees_with_equivalence() {
    let pairs: [(i32, i32); 5] = [(1, 1), (1, 2), (2, 1), (-3, -3), (i32::MIN, i32::MAX)];
    for (k, q) in pairs {
        assert_eq!(k.compare(&q) == Ordering::Equal, k.equivalent(&q));
    }
    let words = ["", "a", "ab", "b"];
    for k in words {
        for q in words {
            let k_owned = String::from(k);
            let q_owned = String::from(q);
            assert_eq!(k_owned.compare(&q_owned) == Ordering::Equal, k_owned.equivalent(&q_owned));
        }
    }
}

#[test]
fn default_ordering_is_a_total_order() {
    let values: [i64; 6] = [i64::MIN, -5, 0, 3, 7, i64::MAX];
    for a in values {
        assert_eq!(a.compare(&a), Ordering::Equal);
        for b in values {
            let ab = a.compare(&b);
            let ba = b.compare(&a);
            assert!(ab == Ordering::Less || ab == Ordering::Equal || ab == Ordering::Greater);
            assert_eq!(ab == Ordering::Less, ba == Ordering::Greater);
            assert_eq!(ab == Ordering::Equal, ba == Ordering::Equal);
            for c in values {
                if ab == Ordering::Less && b.compare(&c) == Ordering::Less {
                    assert_eq!(a.compare(&c), Ordering::Less);
                }
            }
        }
    }
}

#[test]
fn default_ordering_matches_native_comparison() {
    assert_eq!(2u64.compare(&5u64), Ordering::Less);
    assert_eq!(5u64.compare(&2u64), Ordering::Greater);
    assert_eq!(5u64.compare(&5u64), Ordering::Equal);
    assert_eq!((-2i8).compare(&1i8), Ordering::Less);
    assert_eq!(false.compare(&true), Ordering::Less);
    assert_eq!(true.compare(&false), Ordering::Greater);
    assert_eq!(true.compare(&true), Ordering::Equal);
}
