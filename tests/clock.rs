use jinglepi::clock::{current_time_micros, timespec_micros};

#[test]
fn timespec_to_micros() {
    assert_eq!(timespec_micros(1, 500_000_000), 1_500_000);
    assert_eq!(timespec_micros(0, 999_999_999), 999_999);
    assert_eq!(timespec_micros(-1, 0), 0);
    assert_eq!(timespec_micros(i64::MAX, 0), u64::MAX);
    assert_eq!(timespec_micros(1_600_000_000, 1_999), 1_600_000_000_000_001);
}

#[test]
fn clock_reads_after_the_epoch() {
    // 2020-01-01 in microseconds.
    assert!(current_time_micros() > 1_577_836_800_000_000);
}
