use ticktock::framecounter::FrameCounter;
use ticktock::Error;

const SECOND: u64 = 1_000_000_000;

#[test]
fn a_zero_slice_is_no_configuration() {
    assert_eq!(FrameCounter::new_with_slice_size(0).err(), Some(Error::InvalidConfiguration));
    assert_eq!(
        FrameCounter::new_with_slice_size_at(0, 5).err(),
        Some(Error::InvalidConfiguration)
    );
}

#[test]
fn frames_are_counted_per_slice() {
    let mut counter = FrameCounter::new_with_slice_size_at(SECOND, 10 * SECOND).unwrap();
    assert_eq!(counter.last_measurement(), (0, 0));

    for frame in 0..30u64 {
        let now = 10 * SECOND + frame * 33_000_000;
        assert_eq!(counter.next_frame_at(now), Ok(false));
    }
    assert_eq!(counter.last_measurement(), (0, 0));

    // The 31st frame comes 1.02 s after the start and ends the measuring period.
    assert_eq!(counter.next_frame_at(10 * SECOND + 1_020_000_000), Ok(true));
    assert_eq!(counter.last_measurement(), (30, 1_020_000_000));

    // It is the first frame of the slice that started at 11 s.
    assert_eq!(counter.next_frame_at(11 * SECOND + 999_999_999), Ok(false));
    assert_eq!(counter.next_frame_at(12 * SECOND), Ok(true));
    assert_eq!(counter.last_measurement(), (2, SECOND));
}

#[test]
fn a_late_frame_moves_the_slice_on_by_whole_slices() {
    let mut counter = FrameCounter::new_with_slice_size_at(SECOND, 0).unwrap();
    assert_eq!(counter.next_frame_at(3 * SECOND + 700), Ok(true));
    assert_eq!(counter.last_measurement(), (0, 3 * SECOND + 700));
    // The running slice started at 3 s: it ends at 4 s.
    assert_eq!(counter.next_frame_at(4 * SECOND - 1), Ok(false));
    assert_eq!(counter.next_frame_at(4 * SECOND), Ok(true));
    assert_eq!(counter.last_measurement(), (2, SECOND));
}

#[test]
fn a_reading_before_the_slice_is_refused() {
    let mut counter = FrameCounter::new_with_slice_size_at(SECOND, 5 * SECOND).unwrap();
    assert_eq!(counter.next_frame_at(5 * SECOND), Ok(false));
    let before = counter;
    assert_eq!(counter.next_frame_at(5 * SECOND - 1), Err(Error::InPast));
    assert_eq!(counter, before);
}

#[test]
fn the_clock_drives_a_counter() {
    let mut counter = FrameCounter::new_with_slice_size(3_600 * SECOND).unwrap();
    assert_eq!(counter.next_frame(), Ok(false));
    assert_eq!(counter.next_frame(), Ok(false));
    assert_eq!(counter.last_measurement(), (0, 0));

    let mut default = FrameCounter::new();
    assert_eq!(default.next_frame(), Ok(false));

    let mut tiny = FrameCounter::new_with_slice_size(1).unwrap();
    let mut completed = tiny.next_frame().unwrap();
    let mut frames: u64 = 0;
    while !completed && frames < 100_000_000 {
        completed = tiny.next_frame().unwrap();
        frames += 1;
    }
    assert!(completed);
}
