use ghost::clock::{unix_micros, unix_millis};

#[test]
fn unix_millis_counts_whole_milliseconds() {
    assert_eq!(unix_millis(Some((1, 500_000_000))), 1500);
    assert_eq!(unix_millis(Some((1_700_000_000, 999_999))), 1_700_000_000_000);
    assert_eq!(unix_millis(Some((0, 999_999_999))), 999);
}

#[test]
fn unix_millis_of_no_reading_is_zero() {
    assert_eq!(unix_millis(None), 0);
}

#[test]
fn unix_millis_does_not_overflow_at_the_largest_reading() {
    assert_eq!(unix_millis(Some((u64::MAX, 999_999_999))), 18446744073709551615999);
}

#[test]
fn unix_micros_counts_whole_microseconds() {
    assert_eq!(unix_micros(Some((2, 999_999))), 2_000_999);
    assert_eq!(unix_micros(Some((1_700_000_000, 123_456_789))), 1_700_000_000_123_456);
}

#[test]
fn unix_micros_of_no_reading_is_zero() {
    assert_eq!(unix_micros(None), 0);
}

#[test]
fn unix_micros_cuts_to_64_bits() {
    assert_eq!(unix_micros(Some((u64::MAX, 999_999))), 18446744073708552615);
}
