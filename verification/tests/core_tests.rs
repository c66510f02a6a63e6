use interpolation_search::Duration;
use interpolation_search::Fraction;
use interpolation_search::Timestamp;
use interpolation_search::TotalOrder;
use std::cmp::Ordering;

#[test]
fn fraction_constructors() {
    assert_eq!(Fraction::new(3, 7), Fraction { num: 3, den: 7 });
    assert_eq!(Fraction::half(), Fraction { num: 1, den: 2 });
    assert_eq!(Fraction::zero(), Fraction { num: 0, den: 1 });
    assert_eq!(Fraction::one(), Fraction { num: 1, den: 1 });
}

#[test]
fn integer_compare() {
    assert_eq!(3u64.compare(&5u64), Ordering::Less);
    assert_eq!(5u64.compare(&5u64), Ordering::Equal);
    assert_eq!(7u64.compare(&5u64), Ordering::Greater);
    assert_eq!((-3i32).compare(&2i32), Ordering::Less);
}

#[test]
fn char_compare() {
    assert_eq!('a'.compare(&'b'), Ordering::Less);
    assert_eq!('b'.compare(&'b'), Ordering::Equal);
    assert_eq!('ա'.compare(&'a'), Ordering::Greater);
}

#[test]
fn text_compare() {
    assert_eq!("apple".compare(&"banana"), Ordering::Less);
    assert_eq!("apple".compare(&"apple"), Ordering::Equal);
    assert_eq!("applesauce".compare(&"apple"), Ordering::Greater);
    assert_eq!("".compare(&"a"), Ordering::Less);
    assert_eq!(
        String::from("date").compare(&String::from("cherry")),
        Ordering::Greater
    );
}

#[test]
fn timestamp_ordering_and_arithmetic() {
    let t0 = Timestamp::from_secs(100);
    let t1 = t0.plus(&Duration::from_millis(2_500));
    assert_eq!(t1, Timestamp::new(102, 500_000_000));
    assert_eq!(t0.compare(&t1), Ordering::Less);
    assert_eq!(t1.compare(&t0), Ordering::Greater);
    assert_eq!(t0.compare(&Timestamp::new(100, 0)), Ordering::Equal);
    assert_eq!(t0.span_to(&t1), Duration::new(2, 500_000_000));
}

#[test]
fn duration_queries() {
    assert!(Duration::zero().is_zero());
    assert!(!Duration::from_millis(1).is_zero());
    assert_eq!(Duration::from_millis(1500).compare(&Duration::from_secs(2)), Ordering::Less);
}
