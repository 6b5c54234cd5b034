use std::time::Duration;
use virtual_time::millis_of;

#[test]
fn millis_of_whole_milliseconds() {
    assert_eq!(millis_of(&Duration::from_millis(0)), 0);
    assert_eq!(millis_of(&Duration::from_millis(1)), 1);
    assert_eq!(millis_of(&Duration::from_secs(5)), 5_000);
    assert_eq!(millis_of(&Duration::from_millis(u64::MAX)), u64::MAX as u128);
}

#[test]
fn millis_of_cuts_off_what_is_below_a_millisecond() {
    assert_eq!(millis_of(&Duration::new(5, 730_023_852)), 5_730);
    assert_eq!(millis_of(&Duration::from_nanos(999_999)), 0);
    assert_eq!(millis_of(&Duration::from_nanos(1_000_000)), 1);
    assert_eq!(millis_of(&Duration::from_micros(1_999)), 1);
    assert_eq!(millis_of(&Duration::new(0, 999_999_999)), 999);
}

#[test]
fn millis_of_the_longest_duration() {
    let longest = Duration::new(u64::MAX, 999_999_999);
    assert_eq!(millis_of(&longest), u64::MAX as u128 * 1_000 + 999);
    assert_eq!(millis_of(&longest), longest.as_millis());
}

#[test]
fn millis_of_agrees_with_the_standard_library() {
    for duration in [
        Duration::new(0, 1),
        Duration::new(1, 0),
        Duration::new(1, 1_999_999),
        Duration::new(86_400, 500_000),
        Duration::new(u64::MAX / 1_000, 123_456_789),
    ] {
        assert_eq!(millis_of(&duration), duration.as_millis());
    }
}
