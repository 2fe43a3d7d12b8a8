use ticktock::duration::{MILLIS_PER_SEC, NANOS_PER_MILLI, NANOS_PER_SEC};
use ticktock::{Duration, Error, NanoSeconds};

#[test]
fn constants_relate_the_units() {
    assert_eq!(NANOS_PER_SEC, 1_000_000_000);
    assert_eq!(NANOS_PER_MILLI * MILLIS_PER_SEC, NANOS_PER_SEC);
}

#[test]
fn from_millis_splits_into_seconds_and_nanoseconds() {
    let d = Duration::from_millis(1_500);
    assert_eq!(d.as_secs(), 1);
    assert_eq!(d.subsec_nanos(), 500_000_000);
    assert_eq!(d.as_nanos(), 1_500_000_000);
}

#[test]
fn from_millis_takes_the_largest_count() {
    let d = Duration::from_millis(u64::MAX);
    assert_eq!(d.as_secs(), 18_446_744_073_709_551);
    assert_eq!(d.subsec_nanos(), 615_000_000);
}

#[test]
fn from_secs_and_from_nanos_agree() {
    assert_eq!(Duration::from_secs(3), Duration::from_nanos(3_000_000_000));
    assert_eq!(Duration::from_nanos(1_234_567_890).as_secs(), 1);
    assert_eq!(Duration::from_nanos(1_234_567_890).subsec_nanos(), 234_567_890);
}

#[test]
fn new_carries_whole_seconds_out_of_the_nanoseconds() {
    let d = Duration::new(1, 2_500_000_000).unwrap();
    assert_eq!(d.as_secs(), 3);
    assert_eq!(d.subsec_nanos(), 500_000_000);
    assert_eq!(Duration::new(7, 999_999_999).unwrap().as_nanos(), 7_999_999_999);
}

#[test]
fn new_refuses_a_carry_that_does_not_fit() {
    assert_eq!(Duration::new(u64::MAX, 1_000_000_000), None);
    assert!(Duration::new(u64::MAX, 999_999_999).is_some());
}

#[test]
fn zero_is_the_empty_span() {
    assert_eq!(Duration::zero().as_nanos(), 0);
    assert_eq!(Duration::zero(), Duration::from_nanos(0));
    assert!(Duration::zero() != Duration::from_nanos(1));
}

#[test]
fn checked_add_carries_and_detects_overflow() {
    let a = Duration::from_millis(600);
    let b = Duration::from_millis(700);
    assert_eq!(a.checked_add(b), Some(Duration::from_millis(1_300)));
    assert_eq!(Duration::from_secs(u64::MAX).checked_add(Duration::from_secs(1)), None);
    let almost = Duration::new(u64::MAX, 999_999_999).unwrap();
    assert_eq!(almost.checked_add(Duration::from_nanos(1)), None);
    assert_eq!(almost.checked_add(Duration::zero()), Some(almost));
}

#[test]
fn checked_sub_borrows_and_detects_underflow() {
    let a = Duration::from_millis(1_200);
    let b = Duration::from_millis(500);
    assert_eq!(a.checked_sub(b), Some(Duration::from_millis(700)));
    assert_eq!(b.checked_sub(a), None);
    assert_eq!(a.checked_sub(a), Some(Duration::zero()));
}

#[test]
fn saturating_sub_stops_at_zero() {
    let a = Duration::from_millis(1_200);
    let b = Duration::from_millis(500);
    assert_eq!(a.saturating_sub(b), Duration::from_millis(700));
    assert_eq!(b.saturating_sub(a), Duration::zero());
}

#[test]
fn at_most_orders_by_length() {
    let a = Duration::new(1, 999_999_999).unwrap();
    let b = Duration::new(2, 0).unwrap();
    assert!(a.at_most(&b));
    assert!(!b.at_most(&a));
    assert!(a.at_most(&a));
}

#[test]
fn from_nanos_u128_covers_the_whole_range() {
    let max: u128 = (u64::MAX as u128) * 1_000_000_000 + 999_999_999;
    let longest = Duration::from_nanos_u128(max).unwrap();
    assert_eq!(longest.as_secs(), u64::MAX);
    assert_eq!(longest.subsec_nanos(), 999_999_999);
    assert_eq!(longest.as_nanos(), max);
    assert_eq!(Duration::from_nanos_u128(max + 1), None);
    assert_eq!(Duration::from_nanos_u128(5), Some(Duration::from_nanos(5)));
}

#[test]
fn as_ns_counts_nanoseconds() {
    assert_eq!(Duration::from_millis(50).as_ns(), Ok(50_000_000));
    assert_eq!(Duration::new(2, 5).unwrap().as_ns(), Ok(2_000_000_005));
    assert_eq!(Duration::zero().as_ns(), Ok(0));
}

#[test]
fn as_ns_fails_beyond_64_bits() {
    let last = Duration::new(18_446_744_073, 709_551_615).unwrap();
    assert_eq!(last.as_ns(), Ok(u64::MAX));
    let beyond = Duration::new(18_446_744_073, 709_551_616).unwrap();
    assert_eq!(beyond.as_ns(), Err(Error::Overflow));
    assert_eq!(Duration::from_secs(18_446_744_074).as_ns(), Err(Error::Overflow));
    assert_eq!(Duration::from_secs(u64::MAX).as_ns(), Err(Error::Overflow));
}

#[test]
fn from_ns_never_fails() {
    assert_eq!(Duration::from_ns(0), Duration::zero());
    assert_eq!(Duration::from_ns(u64::MAX), Duration::new(18_446_744_073, 709_551_615).unwrap());
    assert_eq!(Duration::from_ns(1_000_000_001), Duration::new(1, 1).unwrap());
}

#[test]
fn nanosecond_round_trip_gives_the_duration_back() {
    let samples = vec![
        Duration::zero(),
        Duration::from_nanos(1),
        Duration::from_millis(49),
        Duration::new(3, 999_999_999).unwrap(),
        Duration::new(18_446_744_073, 709_551_615).unwrap(),
    ];
    for d in samples {
        assert_eq!(Duration::from_ns(d.as_ns().unwrap()), d);
    }
}

#[test]
fn nanosecond_round_trip_gives_the_count_back() {
    for ns in vec![0u64, 1, 999_999_999, 1_000_000_000, 123_456_789_012, u64::MAX] {
        assert_eq!(Duration::from_ns(ns).as_ns(), Ok(ns));
    }
}
