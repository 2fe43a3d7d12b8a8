use ticktock::reader::ThrottledReader;
use ticktock::throttled_io::{ThrottledIo, NS_PER_SECOND};
use ticktock::{Duration, Error, Instant};

fn at(micros: u64) -> Instant {
    Instant::from_origin(Duration::from_nanos(5_000_000_000 + micros * 1_000))
}

#[test]
fn a_zero_rate_is_no_configuration() {
    assert_eq!(ThrottledIo::new((), 0).err(), Some(Error::InvalidConfiguration));
    assert_eq!(
        ThrottledIo::new_with_start_time((), 0, at(0)).err(),
        Some(Error::InvalidConfiguration)
    );
    assert_eq!(ThrottledReader::new((), 0).err(), Some(Error::InvalidConfiguration));
    assert_eq!(
        ThrottledReader::new_with_start_time((), 0, at(0)).err(),
        Some(Error::InvalidConfiguration)
    );
}

#[test]
fn a_new_wrapper_has_counted_nothing() {
    let io = ThrottledIo::new_with_start_time("inner", 250_000, at(0)).unwrap();
    assert_eq!(io.rate(), 250_000);
    assert_eq!(io.start(), at(0));
    assert_eq!(io.total_read(), 0);
    assert_eq!(io.total_written(), 0);
    assert_eq!(*io.get_ref(), "inner");
    assert_eq!(io.into_inner(), "inner");
}

#[test]
fn new_measures_from_the_current_instant() {
    let before = Instant::now();
    let io = ThrottledIo::new(7u8, 1).unwrap();
    let after = Instant::now();
    assert!(before.at_or_before(&io.start()));
    assert!(io.start().at_or_before(&after));
    assert_eq!(io.into_inner(), 7);
}

#[test]
fn the_pause_covers_the_bytes_beyond_the_allowed_ones() {
    assert_eq!(NS_PER_SECOND, 1_000_000_000);
    let io = ThrottledIo::new_with_start_time((), 250_000, at(0)).unwrap();
    // Nothing is allowed yet: 500 bytes take 2 ms at 250 000 bytes per second.
    assert_eq!(io.delay(500, at(0)), Ok(Duration::from_millis(2)));
    // After 1 ms, 250 bytes are allowed, the other 250 take 1 ms.
    assert_eq!(io.delay(500, at(1_000)), Ok(Duration::from_millis(1)));
    // After 2 ms, all 500 bytes are allowed.
    assert_eq!(io.delay(500, at(2_000)), Ok(Duration::zero()));
    assert_eq!(io.delay(500, at(9_000)), Ok(Duration::zero()));
    assert_eq!(io.delay(0, at(0)), Ok(Duration::zero()));
}

#[test]
fn the_pause_rounds_down_twice() {
    let io = ThrottledIo::new_with_start_time((), 3, at(0)).unwrap();
    // 1 ms allows 3 000 000 / 1e9 = 0 bytes; 10 bytes take 10e9 / 3 ns.
    assert_eq!(io.delay(10, at(1_000)), Ok(Duration::from_nanos(3_333_333_333)));
    // 400 ms allow 1 byte; 9 bytes take 3 s.
    assert_eq!(io.delay(10, at(400_000)), Ok(Duration::from_secs(3)));
}

#[test]
fn a_reading_before_the_start_is_refused() {
    let mut io = ThrottledIo::new_with_start_time((), 250_000, at(10)).unwrap();
    assert_eq!(io.delay(500, at(9)), Err(Error::InPast));
    assert_eq!(io.record_read(500, at(9)), Err(Error::InPast));
    assert_eq!(io.total_read(), 500);
    assert_eq!(io.record_write(20, at(9)), Err(Error::InPast));
    assert_eq!(io.total_written(), 20);
}

#[test]
fn a_pause_beyond_the_longest_duration_overflows() {
    let io = ThrottledIo::new_with_start_time((), 1, at(0)).unwrap();
    assert_eq!(io.delay(u128::MAX, at(0)), Err(Error::Overflow));
    let longest_secs = u64::MAX as u128;
    assert_eq!(io.delay(longest_secs, at(0)), Ok(Duration::from_secs(u64::MAX)));
    assert_eq!(io.delay(longest_secs + 1, at(0)), Err(Error::Overflow));
}

#[test]
fn reads_and_writes_are_counted_apart() {
    let mut io = ThrottledIo::new_with_start_time((), 1_000, at(0)).unwrap();
    assert_eq!(io.record_read(100, at(0)), Ok(Duration::from_millis(100)));
    assert_eq!(io.record_write(30, at(0)), Ok(Duration::from_millis(30)));
    assert_eq!(io.record_read(100, at(0)), Ok(Duration::from_millis(200)));
    assert_eq!(io.record_write(0, at(0)), Ok(Duration::from_millis(30)));
    assert_eq!(io.total_read(), 200);
    assert_eq!(io.total_written(), 30);
    assert_eq!(io.rate(), 1_000);
    assert_eq!(io.start(), at(0));
}

#[test]
fn the_wrapped_value_can_be_used_in_place() {
    let mut io = ThrottledIo::new_with_start_time(vec![1u8, 2], 1_000, at(0)).unwrap();
    io.get_mut().push(3);
    assert_eq!(io.record_read(1, at(0)), Ok(Duration::from_millis(1)));
    assert_eq!(io.get_ref().len(), 3);
    assert_eq!(io.into_inner(), vec![1u8, 2, 3]);
}

#[test]
fn a_megabyte_at_250_kilobytes_per_second_takes_four_seconds() {
    let start = at(0);
    let mut io = ThrottledIo::new_with_start_time((), 250_000, start).unwrap();
    let mut now = start;
    let mut remaining: usize = 1_000_000;
    let mut chunks = 0;
    while remaining >= 500 {
        let pause = io.record_read(500, now).unwrap();
        now = now.checked_add(pause).unwrap();
        remaining -= 500;
        chunks += 1;
    }
    assert_eq!(chunks, 2_000);
    assert_eq!(io.total_read(), 1_000_000);
    assert_eq!(now.checked_duration_since(start), Some(Duration::from_secs(4)));
}

#[test]
fn a_burst_is_paid_for_afterwards() {
    let start = at(0);
    let mut io = ThrottledIo::new_with_start_time((), 250_000, start).unwrap();
    // One oversized transfer goes through at once and owes four seconds.
    assert_eq!(io.record_write(1_000_000, start), Ok(Duration::from_secs(4)));
    // A caller that did not pause owes the same time, and more, at the next transfer.
    assert_eq!(io.record_write(500, start), Ok(Duration::from_millis(4_002)));
    // A caller that idles long enough owes nothing.
    assert_eq!(io.record_write(500, at(60_000_000)), Ok(Duration::zero()));
}

#[test]
fn the_reader_keeps_whole_nanoseconds_per_byte() {
    // 8000 bits per second: one byte per millisecond.
    let mut reader = ThrottledReader::new_with_start_time((), 8_000, at(0)).unwrap();
    assert_eq!(reader.record_read(10, at(0)), Ok(Duration::from_millis(10)));
    // 4 ms cover 4 of the 10 bytes.
    assert_eq!(reader.record_read(0, at(4_000)), Ok(Duration::from_millis(6)));
    assert_eq!(reader.record_read(0, at(10_000)), Ok(Duration::zero()));
    assert_eq!(reader.total_read(), 10);

    // 3 bits per second: 2 666 666 666 ns per byte, rounded down.
    let mut slow = ThrottledReader::new_with_start_time((), 3, at(0)).unwrap();
    assert_eq!(slow.record_read(2, at(0)), Ok(Duration::from_nanos(5_333_333_332)));
}

#[test]
fn the_reader_refuses_a_reading_before_its_start() {
    let mut reader = ThrottledReader::new_with_start_time(vec![0u8], 8_000, at(10)).unwrap();
    assert_eq!(reader.record_read(1, at(9)), Err(Error::InPast));
    assert_eq!(reader.total_read(), 1);
    reader.get_mut().push(1);
    assert_eq!(reader.get_mut().len(), 2);
}

#[test]
fn the_reader_measures_from_the_current_instant() {
    let mut reader = ThrottledReader::new((), u32::MAX).unwrap();
    // One nanosecond per byte at the highest rate.
    let pause = reader.record_read(1_000, Instant::now()).unwrap();
    assert!(pause.at_most(&Duration::from_nanos(1_000)));
}

#[test]
fn the_pause_ends_where_the_allowance_catches_up() {
    let start = at(0);
    for (rate, total, elapsed_micros) in vec![
        (3u32, 10u128, 1_000u64),
        (250_000, 500, 0),
        (250_000, 500, 1_999),
        (7, 1_000_003, 123_456),
        (u32::MAX, 99_999_999_999, 17),
        (1_000_000_007, 5, 0),
    ] {
        let io = ThrottledIo::new_with_start_time((), rate, start).unwrap();
        let now = at(elapsed_micros);
        let pause = io.delay(total, now).unwrap();
        assert!(pause != Duration::zero());
        let end = now.checked_add(pause).unwrap();
        let just_after = end.checked_add(Duration::from_nanos(1)).unwrap();
        // One nanosecond after the pause nothing is owed any more.
        assert_eq!(io.delay(total, just_after), Ok(Duration::zero()));
        // At rates up to a byte per nanosecond, one byte more would still be owed at the end
        // of the pause.
        if rate <= 1_000_000_000 {
            assert!(io.delay(total + 1, end).unwrap() != Duration::zero());
        }
    }
}

#[test]
fn the_readers_pause_ends_where_the_time_covers_the_bytes() {
    let start = at(0);
    for (bits, bytes, elapsed_micros) in vec![
        (8_000u32, 10usize, 4_000u64),
        (3, 2, 0),
        (3, 2, 2_700_000),
        (u32::MAX, 1_000, 0),
        (1_000_003, 77, 5),
    ] {
        let mut reader = ThrottledReader::new_with_start_time((), bits, start).unwrap();
        let now = at(elapsed_micros);
        let pause = reader.record_read(bytes, now).unwrap();
        assert!(pause != Duration::zero());
        let end = now.checked_add(pause).unwrap();
        assert_eq!(reader.record_read(0, end), Ok(Duration::zero()));
        // One byte more is owed in full.
        let one_more = reader.record_read(1, end).unwrap();
        assert!(one_more != Duration::zero());
        assert!(one_more.at_most(&Duration::from_nanos(8_000_000_000 / bits as u64)));
    }
}
