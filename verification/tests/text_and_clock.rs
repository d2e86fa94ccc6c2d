use codex_pulse::clock::{
    countdown_text, countdown_text_at, instant_from_offset, millis_of, minutes_between, unix_millis,
};
use codex_pulse::text::{countdown_label, decimal_text, percent_text, wide};

#[test]
fn decimal_notation() {
    assert_eq!(decimal_text(0), "0");
    assert_eq!(decimal_text(7), "7");
    assert_eq!(decimal_text(1234567890), "1234567890");
    assert_eq!(decimal_text(u64::MAX), u64::MAX.to_string());
}

#[test]
fn percent_text_clamps() {
    assert_eq!(percent_text(42), "42 %");
    assert_eq!(percent_text(0), "0 %");
    assert_eq!(percent_text(100), "100 %");
    assert_eq!(percent_text(-5), "0 %");
    assert_eq!(percent_text(250), "100 %");
}

#[test]
fn countdown_label_formats() {
    assert_eq!(countdown_label(0), "00:00");
    assert_eq!(countdown_label(-30), "00:00");
    assert_eq!(countdown_label(59), "00:59");
    assert_eq!(countdown_label(61), "01:01");
    assert_eq!(countdown_label(23 * 60 + 59), "23:59");
    assert_eq!(countdown_label(24 * 60), "1일 0시간");
    assert_eq!(countdown_label(24 * 60 + 90), "1일 1시간");
    assert_eq!(countdown_label(12 * 24 * 60 + 5 * 60), "12일 5시간");
}

#[test]
fn minutes_between_truncates_toward_zero() {
    assert_eq!(minutes_between((120, 0), (0, 0)), 2);
    assert_eq!(minutes_between((119, 999_999_999), (0, 0)), 1);
    assert_eq!(minutes_between((0, 0), (119, 0)), -1);
    assert_eq!(minutes_between((60, 0), (0, 1)), 0);
    assert_eq!(minutes_between((i64::MAX, 0), (i64::MIN, 0)), (u64::MAX / 60) as i64);
}

// 2026-01-01T00:00:00Z is 1_767_225_600 seconds after the epoch.
const NEW_YEAR_2026: i64 = 1_767_225_600;

#[test]
fn countdown_from_rfc3339() {
    let now = (NEW_YEAR_2026 - 2 * 3600 - 30 * 60, 0);
    assert_eq!(countdown_text_at("2026-01-01T00:00:00Z", now), "02:30");
    assert_eq!(countdown_text_at("2026-01-01T09:00:00+09:00", now), "02:30");
    assert_eq!(countdown_text_at("2026-01-03T03:00:00Z", now), "2일 5시간");
    assert_eq!(countdown_text_at("2026-01-01T00:00:00Z", (NEW_YEAR_2026 + 60, 0)), "00:00");
}

#[test]
fn leap_second_reset_counts_like_chrono() {
    // 2030-01-01T12:00:00Z; the reset lies in the leap second after
    // 2030-01-02T10:05:59Z, earlier in the day than now.
    let now = (1_893_499_200, 0);
    assert_eq!(countdown_text_at("2030-01-02T10:05:60Z", now), "22:05");
    assert_eq!(countdown_text_at("2030-01-02T10:05:59Z", now), "22:05");
    assert_eq!(countdown_text_at("2030-01-02T10:06:00Z", now), "22:06");
    // A leap second later in the day than now counts without correction.
    assert_eq!(minutes_between((1_893_542_400 + 43_259, 1_000_000_000), (1_893_499_200 + 59, 0)), 24 * 60);
    // chrono's own subtraction agrees.
    let reset = chrono::DateTime::parse_from_rfc3339("2030-01-02T10:05:60Z").unwrap();
    let start = chrono::DateTime::parse_from_rfc3339("2030-01-01T12:00:00Z").unwrap();
    assert_eq!(
        minutes_between((reset.timestamp(), reset.timestamp_subsec_nanos()), (start.timestamp(), 0)),
        (reset - start).num_minutes()
    );
}

#[test]
fn clock_offsets_become_instants() {
    assert_eq!(instant_from_offset(Ok((5, 250))), Some((5, 250)));
    assert_eq!(instant_from_offset(Err((1, 250_000_000))), Some((-2, 750_000_000)));
    assert_eq!(instant_from_offset(Err((3, 0))), Some((-3, 0)));
    assert_eq!(instant_from_offset(Err((1 << 63, 0))), Some((i64::MIN, 0)));
    assert_eq!(instant_from_offset(Err((1 << 63, 1))), None);
    assert_eq!(instant_from_offset(Ok((u64::MAX, 0))), None);
    assert_eq!(instant_from_offset(Ok((0, 1_000_000_000))), None);
}

#[test]
fn countdown_of_bad_text_is_dash() {
    assert_eq!(countdown_text_at("tomorrow", (NEW_YEAR_2026, 0)), "-");
    assert_eq!(countdown_text_at("", (NEW_YEAR_2026, 0)), "-");
    assert_eq!(countdown_text("2026-13-01T00:00:00Z"), "-");
}

#[test]
fn countdown_at_current_time() {
    // A reset far in the past counts as no time left.
    assert_eq!(countdown_text("2000-01-01T00:00:00Z"), "00:00");
    let label = countdown_text("2999-01-01T00:00:00Z");
    assert!(label.ends_with("시간"));
}

#[test]
fn milliseconds_of_elapsed_time() {
    assert_eq!(millis_of(None), 0);
    assert_eq!(millis_of(Some((1, 999_999_999))), 1999);
    assert_eq!(millis_of(Some((u64::MAX, 0))), u64::MAX.wrapping_mul(1000));
    // The clock is past 2020.
    assert!(unix_millis() > 1_577_836_800_000);
}

#[test]
fn wide_strings_are_nul_terminated_utf16() {
    assert_eq!(wide(""), vec![0u16]);
    assert_eq!(wide("AB"), vec![0x41, 0x42, 0]);
    assert_eq!(wide("가"), vec![0xAC00, 0]);
    assert_eq!(wide("😀"), vec![0xD83D, 0xDE00, 0]);
    let label = "Windows 시작 시 자동 실행";
    let mut expected: Vec<u16> = label.encode_utf16().collect();
    expected.push(0);
    assert_eq!(wide(label), expected);
}
