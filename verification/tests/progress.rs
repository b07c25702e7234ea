use vanity_address::progress::difficulty;
use vanity_address::progress::estimated_time;
use vanity_address::progress::progress_report;
use vanity_address::progress::speed;
use vanity_address::progress::ProgressReport;

#[test]
fn difficulty_of_the_empty_pattern_is_one() {
    assert_eq!(difficulty(0), 1);
}

#[test]
fn difficulty_is_sixteen_to_the_length() {
    assert_eq!(difficulty(1), 16);
    assert_eq!(difficulty(2), 256);
    assert_eq!(difficulty(5), 1_048_576);
    assert_eq!(difficulty(15), 1_152_921_504_606_846_976);
}

#[test]
fn difficulty_of_sixteen_digits_is_the_largest_value() {
    assert_eq!(difficulty(16), u64::MAX);
}

#[test]
fn difficulty_beyond_sixteen_digits_stays_the_largest_value() {
    assert_eq!(difficulty(17), u64::MAX);
    assert_eq!(difficulty(40), u64::MAX);
    assert_eq!(difficulty(usize::MAX), u64::MAX);
}

#[test]
fn speed_is_zero_before_the_first_second() {
    assert_eq!(speed(0, 0), 0);
    assert_eq!(speed(123_456, 0), 0);
}

#[test]
fn speed_is_attempts_by_seconds_rounded_down() {
    assert_eq!(speed(1000, 3), 333);
    assert_eq!(speed(2, 3), 0);
    assert_eq!(speed(0, 5), 0);
    assert_eq!(speed(u64::MAX, 1), u64::MAX);
}

#[test]
fn estimated_time_without_speed_is_the_largest_value() {
    assert_eq!(estimated_time(256, 0), u64::MAX);
    assert_eq!(estimated_time(0, 0), u64::MAX);
    assert_eq!(estimated_time(u64::MAX, 0), u64::MAX);
}

#[test]
fn estimated_time_is_difficulty_by_speed_rounded_down() {
    assert_eq!(estimated_time(256, 100), 2);
    assert_eq!(estimated_time(256, 257), 0);
    assert_eq!(estimated_time(u64::MAX, 1), u64::MAX);
    assert_eq!(estimated_time(u64::MAX, 2), u64::MAX / 2);
}

#[test]
fn report_after_four_seconds() {
    assert_eq!(
        progress_report(1000, 4, 2),
        ProgressReport { speed: 250, elapsed: 4, estimated_time: 1 }
    );
}

#[test]
fn report_before_the_first_second() {
    assert_eq!(
        progress_report(1000, 0, 2),
        ProgressReport { speed: 0, elapsed: 0, estimated_time: u64::MAX }
    );
}

#[test]
fn report_for_a_pattern_of_sixteen_digits() {
    assert_eq!(
        progress_report(500_000, 10, 16),
        ProgressReport { speed: 50_000, elapsed: 10, estimated_time: u64::MAX / 50_000 }
    );
}

#[test]
fn report_when_nothing_was_counted() {
    assert_eq!(
        progress_report(0, 7, 3),
        ProgressReport { speed: 0, elapsed: 7, estimated_time: u64::MAX }
    );
}
