use thunder_reset::time_codec::{decimal_text, format_time, zero_padded_text};

#[test]
fn format_time_known_constants() {
    assert_eq!(format_time(0), "00:00:00.000");
    assert_eq!(format_time(1200), "00:01:00.000");
    assert_eq!(format_time(72000), "01:00:00.000");
    assert_eq!(format_time(10), "00:00:00.500");
}

#[test]
fn format_time_single_tick_is_fifty_millis() {
    assert_eq!(format_time(1), "00:00:00.050");
    assert_eq!(format_time(2), "00:00:00.100");
    assert_eq!(format_time(19), "00:00:00.950");
    assert_eq!(format_time(20), "00:00:01.000");
}

#[test]
fn format_time_mixed_fields() {
    // 12 h, 34 min, 56 s and 7 ticks.
    let ticks = 12 * 72000 + 34 * 1200 + 56 * 20 + 7;
    assert_eq!(format_time(ticks), "12:34:56.350");
    assert_eq!(format_time(72000 - 1), "00:59:59.950");
    assert_eq!(format_time(24000), "00:20:00.000");
}

#[test]
fn format_time_hours_grow_past_two_digits() {
    assert_eq!(format_time(99 * 72000 + 59 * 1200 + 59 * 20 + 19), "99:59:59.950");
    assert_eq!(format_time(100 * 72000), "100:00:00.000");
    // 18446744073709551615 = 256204778801521 h, 33 min, 0 s, 15 ticks.
    assert_eq!(format_time(u64::MAX), "256204778801521:33:00.750");
}

#[test]
fn format_time_is_twelve_characters_below_a_hundred_hours() {
    for ticks in [0u64, 1, 19, 20, 1199, 1200, 71999, 72000, 7199999] {
        let text = format_time(ticks);
        assert_eq!(text.len(), 12);
        let bytes = text.as_bytes();
        assert_eq!(bytes[2], b':');
        assert_eq!(bytes[5], b':');
        assert_eq!(bytes[8], b'.');
    }
}

#[test]
fn decimal_text_writes_base_ten() {
    assert_eq!(decimal_text(0), "0");
    assert_eq!(decimal_text(7), "7");
    assert_eq!(decimal_text(10), "10");
    assert_eq!(decimal_text(1234567890), "1234567890");
    assert_eq!(decimal_text(u64::MAX), "18446744073709551615");
}

#[test]
fn zero_padded_text_fills_but_never_cuts() {
    assert_eq!(zero_padded_text(5, 2), "05");
    assert_eq!(zero_padded_text(5, 3), "005");
    assert_eq!(zero_padded_text(50, 3), "050");
    assert_eq!(zero_padded_text(500, 3), "500");
    assert_eq!(zero_padded_text(12345, 2), "12345");
    assert_eq!(zero_padded_text(0, 0), "0");
}
