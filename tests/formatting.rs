use pomodoro::{format_duration, NANOS_PER_SEC};

const MS: u64 = 1_000_000;

#[test]
fn formats_minutes_and_seconds() {
    assert_eq!(format_duration(125 * NANOS_PER_SEC), "02:05");
}

#[test]
fn rounds_seconds_down() {
    assert_eq!(format_duration(59_900 * MS), "00:59");
}

#[test]
fn formats_zero() {
    assert_eq!(format_duration(0), "00:00");
}

#[test]
fn under_a_second_shows_zero() {
    assert_eq!(format_duration(400 * MS), "00:00");
}

#[test]
fn formats_full_work_interval() {
    assert_eq!(format_duration(25 * 60 * NANOS_PER_SEC), "25:00");
    assert_eq!(format_duration(20 * 60 * NANOS_PER_SEC), "20:00");
}

#[test]
fn formats_last_second_of_hour() {
    assert_eq!(format_duration(3599 * NANOS_PER_SEC + 999 * MS), "59:59");
}

#[test]
fn minutes_past_ninety_nine_take_more_digits() {
    assert_eq!(format_duration(100 * 60 * NANOS_PER_SEC + 7 * NANOS_PER_SEC), "100:07");
}

#[test]
fn formats_largest_duration() {
    // u64::MAX nanoseconds: 18446744073 seconds.
    assert_eq!(format_duration(u64::MAX), "307445734:33");
}
