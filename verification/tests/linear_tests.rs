use interpolation_search::Duration;
use interpolation_search::Linear;
use interpolation_search::Timestamp;

fn now_timestamp() -> Timestamp {
    let d = std::time::SystemTime::now()
        .duration_since(std::time::UNIX_EPOCH)
        .unwrap();
    Timestamp::new(d.as_secs(), d.subsec_nanos())
}

#[test]
fn u8_distance() {
    assert_eq!(5u8.distance_to(&10u8), 5u8);
    assert_eq!(5u8.distance_to(&5u8), 0u8);
    assert_eq!(0u8.distance_to(&255u8), 255u8);
}

#[test]
fn i8_distance() {
    assert_eq!((-5 as i8).distance_to(&10i8), 15u8);
    assert_eq!((-128 as i8).distance_to(&127i8), 255u8);
}

#[test]
fn char_distance_positive() {
    assert_eq!('a'.distance_to(&'a'), 0u16);
    assert_eq!('a'.distance_to(&'d'), 3u16);
    assert_eq!('ա'.distance_to(&'դ'), 3u16);
}

#[test]
fn system_time_distance_future() {
    let now = now_timestamp();
    let five_sec = Duration::from_secs(5);
    let future = now.plus(&five_sec);
    assert_eq!(now.distance_to(&future), five_sec);
    assert_eq!(now.distance_to(&now), Duration::zero());
}

#[test]
fn test_str_distance() {
    assert_eq!("".distance_to(&""), Vec::new());
    assert_eq!("a".distance_to(&"a"), vec![0]);
    assert_eq!("a".distance_to(&"b"), vec![1]);
    assert_eq!("ab".distance_to(&"ac"), vec![0, 1]);
    assert_eq!("abc".distance_to(&"abd"), vec![0, 0, 1]);
    assert_eq!("abc".distance_to(&"dbd"), vec![3, 0, 1]);
    assert_eq!("աբգ".distance_to(&"աբդ"), vec![0, 0, 1]);
    assert_eq!("ab".distance_to(&"a"), vec![0]);
    assert_eq!("a".distance_to(&"abc"), vec![0]);
}

#[test]
fn string_distance() {
    let a = String::from("abc");
    let b = String::from("abd");
    assert_eq!(a.distance_to(&b), vec![0, 0, 1]);
}

#[test]
fn backward_char_distance_is_zero() {
    assert_eq!('d'.distance_to(&'a'), 0u16);
}

#[test]
fn str_distance_caps_at_byte() {
    // A per-character distance beyond a byte is capped at 255.
    assert_eq!("a".distance_to(&"ҡ"), vec![255]);
}

#[test]
fn timestamp_distance_past_is_zero() {
    let now = now_timestamp();
    let future = now.plus(&Duration::from_secs(3));
    assert_eq!(future.distance_to(&now), Duration::zero());
}
