use ticktock::{Duration, Instant};

#[test]
fn now_does_not_run_backwards() {
    let first = Instant::now();
    let second = Instant::now();
    assert!(first.at_or_before(&second));
    assert!(second.checked_duration_since(first).is_some());
}

#[test]
fn now_advances_while_time_passes() {
    let first = Instant::now();
    let mut reading = Instant::now();
    let mut readings: u64 = 0;
    while reading == first && readings < 100_000_000 {
        reading = Instant::now();
        readings += 1;
    }
    assert!(first.at_or_before(&reading));
    assert!(reading != first);
}

#[test]
fn from_origin_and_since_origin_are_inverse() {
    let offset = Duration::new(12, 345).unwrap();
    let at = Instant::from_origin(offset);
    assert_eq!(at.since_origin(), offset);
    assert_eq!(Instant::from_origin(at.since_origin()), at);
}

#[test]
fn checked_add_moves_forward() {
    let at = Instant::from_origin(Duration::from_millis(900));
    let later = at.checked_add(Duration::from_millis(200)).unwrap();
    assert_eq!(later.since_origin(), Duration::from_millis(1_100));
}

#[test]
fn checked_add_stops_at_the_latest_instant() {
    let latest = Instant::from_origin(Duration::new(u64::MAX, 999_999_999).unwrap());
    assert_eq!(latest.checked_add(Duration::from_nanos(1)), None);
    assert_eq!(latest.checked_add(Duration::zero()), Some(latest));
}

#[test]
fn checked_duration_since_measures_forward_only() {
    let early = Instant::from_origin(Duration::from_millis(10));
    let late = Instant::from_origin(Duration::from_millis(25));
    assert_eq!(late.checked_duration_since(early), Some(Duration::from_millis(15)));
    assert_eq!(early.checked_duration_since(late), None);
    assert_eq!(early.checked_duration_since(early), Some(Duration::zero()));
}

#[test]
fn saturating_duration_since_stops_at_zero() {
    let early = Instant::from_origin(Duration::from_millis(10));
    let late = Instant::from_origin(Duration::from_millis(25));
    assert_eq!(late.saturating_duration_since(early), Duration::from_millis(15));
    assert_eq!(early.saturating_duration_since(late), Duration::zero());
}

#[test]
fn at_or_before_orders_instants() {
    let early = Instant::from_origin(Duration::from_millis(10));
    let late = Instant::from_origin(Duration::from_millis(25));
    assert!(early.at_or_before(&late));
    assert!(early.at_or_before(&early));
    assert!(!late.at_or_before(&early));
}
