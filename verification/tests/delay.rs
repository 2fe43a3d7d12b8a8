use std::cell::{Cell, RefCell};
use ticktock::delay::{retry, retry_opt, should_retry, Delay};
use ticktock::Duration;

#[test]
fn a_new_delay_starts_without_a_pause() {
    let mut delay = Delay::new(Duration::from_millis(250));
    assert_eq!(delay.next_pause(), None);
    assert_eq!(delay.next_pause(), Some(Duration::from_millis(250)));
    assert_eq!(delay.next_pause(), Some(Duration::from_millis(250)));
}

#[test]
fn a_delayed_delay_starts_with_a_pause() {
    let mut delay = Delay::delayed(Duration::from_millis(250));
    assert_eq!(delay.next_pause(), Some(Duration::from_millis(250)));
    assert_eq!(delay.next_pause(), Some(Duration::from_millis(250)));
}

#[test]
fn only_failures_with_retries_left_are_retried() {
    let failure: Result<u8, u8> = Err(1);
    let success: Result<u8, u8> = Ok(1);
    assert!(should_retry(&failure, 1));
    assert!(!should_retry(&failure, 0));
    assert!(!should_retry(&success, 1));
    assert!(!should_retry(&success, 0));
}

#[test]
fn retry_gives_up_after_the_retries() {
    let calls = Cell::new(0u32);
    let pauses = RefCell::new(Vec::new());
    let rv: Result<(), u32> = retry(
        3,
        Duration::from_millis(250),
        || {
            calls.set(calls.get() + 1);
            Err(calls.get())
        },
        |pause| pauses.borrow_mut().push(pause),
    );
    assert_eq!(rv, Err(4));
    assert_eq!(calls.get(), 4);
    assert_eq!(*pauses.borrow(), vec![Duration::from_millis(250); 3]);
}

#[test]
fn retry_stops_at_the_first_success() {
    let calls = Cell::new(0u32);
    let pauses = Cell::new(0u32);
    let rv: Result<u32, ()> = retry(
        5,
        Duration::from_millis(250),
        || {
            calls.set(calls.get() + 1);
            if calls.get() == 2 {
                Ok(calls.get())
            } else {
                Err(())
            }
        },
        |_| pauses.set(pauses.get() + 1),
    );
    assert_eq!(rv, Ok(2));
    assert_eq!(calls.get(), 2);
    assert_eq!(pauses.get(), 1);
}

#[test]
fn retry_without_retries_calls_once() {
    let calls = Cell::new(0u32);
    let rv: Result<(), ()> = retry(
        0,
        Duration::from_millis(250),
        || {
            calls.set(calls.get() + 1);
            Err(())
        },
        |_| panic!("no pause without a retry"),
    );
    assert_eq!(rv, Err(()));
    assert_eq!(calls.get(), 1);
}

#[test]
fn retry_does_not_pause_after_an_immediate_success() {
    let rv: Result<u8, ()> = retry(
        9,
        Duration::from_millis(250),
        || Ok(1),
        |_| panic!("no pause after a success"),
    );
    assert_eq!(rv, Ok(1));
}

#[test]
fn retry_opt_retries_until_a_value_comes() {
    let calls = Cell::new(0u32);
    let pauses = Cell::new(0u32);
    let rv = retry_opt(
        5,
        Duration::from_millis(1),
        || {
            calls.set(calls.get() + 1);
            if calls.get() == 3 {
                Some("in")
            } else {
                None
            }
        },
        |_| pauses.set(pauses.get() + 1),
    );
    assert_eq!(rv, Some("in"));
    assert_eq!(calls.get(), 3);
    assert_eq!(pauses.get(), 2);

    let never: Option<u8> = retry_opt(2, Duration::from_millis(1), || None, |_| ());
    assert_eq!(never, None);
}

#[test]
fn a_new_delay_retries_once_without_a_pause() {
    let calls = Cell::new(0u32);
    let pauses = RefCell::new(Vec::new());
    let mut delay = Delay::new(Duration::from_millis(40));
    let rv: Result<(), ()> = delay.retry(
        3,
        || {
            calls.set(calls.get() + 1);
            Err(())
        },
        |pause| pauses.borrow_mut().push(pause),
    );
    assert_eq!(rv, Err(()));
    assert_eq!(calls.get(), 4);
    assert_eq!(*pauses.borrow(), vec![Duration::from_millis(40); 2]);
    assert_eq!(delay.next_pause(), Some(Duration::from_millis(40)));
}
