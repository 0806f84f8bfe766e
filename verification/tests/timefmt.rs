use demo_crawler::timefmt::{tick_time_text, u64_to_dec_string};

#[test]
fn decimal_text_of_small_and_large_numbers() {
    assert_eq!(u64_to_dec_string(0), "0");
    assert_eq!(u64_to_dec_string(7), "7");
    assert_eq!(u64_to_dec_string(10), "10");
    assert_eq!(u64_to_dec_string(90210), "90210");
    assert_eq!(u64_to_dec_string(u64::MAX), "18446744073709551615");
}

#[test]
fn zero_milliseconds() {
    assert_eq!(tick_time_text(0), "0.000s");
}

#[test]
fn seconds_only_without_padding() {
    assert_eq!(tick_time_text(5_123), "5.123s");
}

#[test]
fn minutes_pad_the_seconds() {
    assert_eq!(tick_time_text(65_123), "1m05.123s");
}

#[test]
fn hours_pad_minutes_and_seconds() {
    assert_eq!(tick_time_text(3_600_000 + 7 * 60_000 + 2_250), "1h07m02.250s");
}

#[test]
fn sub_second_values_pad_milliseconds() {
    assert_eq!(tick_time_text(42), "0.042s");
    assert_eq!(tick_time_text(7), "0.007s");
    assert_eq!(tick_time_text(999), "0.999s");
}

#[test]
fn exact_minute_boundary() {
    assert_eq!(tick_time_text(60_000), "1m00.000s");
    assert_eq!(tick_time_text(3_600_000), "1h00m00.000s");
}

#[test]
fn many_hours_do_not_pad_the_hour_part() {
    assert_eq!(tick_time_text(25 * 3_600_000 + 59 * 60_000 + 59_999), "25h59m59.999s");
}
