use intricase::config::{parse_number, parse_window, smtp_enabled, Config};
use intricase::crypto::CostParams;
use intricase::text::{clone_opt_text, same_text};
use intricase::time::{days_to_nanos, hours_to_nanos, is_within_window, Timestamp};

#[test]
fn numbers_read_like_decimal_integers() {
    assert_eq!(parse_number("0"), Some(0));
    assert_eq!(parse_number("7"), Some(7));
    assert_eq!(parse_number("24"), Some(24));
    assert_eq!(parse_number("+24"), Some(24));
    assert_eq!(parse_number("-24"), Some(-24));
    assert_eq!(parse_number("007"), Some(7));
    assert_eq!(parse_number("-0"), Some(0));
}

#[test]
fn numbers_read_up_to_the_64_bit_bounds() {
    assert_eq!(parse_number("9223372036854775807"), Some(i64::MAX));
    assert_eq!(parse_number("-9223372036854775808"), Some(i64::MIN));
    assert_eq!(parse_number("9223372036854775808"), None);
    assert_eq!(parse_number("-9223372036854775809"), None);
    assert_eq!(parse_number("99999999999999999999999999999999999999999999"), None);
    assert_eq!(parse_number("0000000000000000000000000000000000000000000012"), Some(12));
}

#[test]
fn anything_else_reads_as_no_number() {
    assert_eq!(parse_number(""), None);
    assert_eq!(parse_number("+"), None);
    assert_eq!(parse_number("-"), None);
    assert_eq!(parse_number(" 7"), None);
    assert_eq!(parse_number("7 "), None);
    assert_eq!(parse_number("7d"), None);
    assert_eq!(parse_number("seven"), None);
    assert_eq!(parse_number("+-7"), None);
    assert_eq!(parse_number("1.5"), None);
    assert_eq!(parse_number("٧"), None);
}

#[test]
fn numbers_read_as_the_standard_library_reads_them() {
    let samples = [
        "0", "-1", "+1", "", "-", "+", "12a", "9223372036854775807", "9223372036854775808",
        "-9223372036854775808", "-9223372036854775809", "  3", "3\n", "0x10", "1_000", "--1",
    ];
    for text in samples {
        assert_eq!(parse_number(text), text.parse::<i64>().ok());
    }
}

#[test]
fn missing_window_reads_as_none() {
    assert_eq!(parse_window(None), None);
    assert_eq!(parse_window(Some("7")), Some(7));
    assert_eq!(parse_window(Some("soon")), None);
}

#[test]
fn settings_carry_windows_and_standard_costs() {
    let config = Config::from_settings(Some("24"), Some("7"));
    assert_eq!(config.otp_duration_hours, Some(24));
    assert_eq!(config.session_duration_days, Some(7));
    assert_eq!(config.hash_cost, CostParams { m_cost: 2_097_152, t_cost: 1, p_cost: 1 });
    let broken = Config::from_settings(Some("a day"), None);
    assert_eq!(broken.otp_duration_hours, None);
    assert_eq!(broken.session_duration_days, None);
    assert_eq!(Config::new(Some(1), None).otp_duration_hours, Some(1));
}

#[test]
fn mail_is_on_only_for_true() {
    assert!(smtp_enabled(Some("true")));
    assert!(smtp_enabled(Some("TRUE")));
    assert!(smtp_enabled(Some("True")));
    assert!(!smtp_enabled(Some("false")));
    assert!(!smtp_enabled(Some("1")));
    assert!(!smtp_enabled(Some("")));
    assert!(!smtp_enabled(Some("true ")));
    assert!(!smtp_enabled(Some("yes!")));
    assert!(!smtp_enabled(None));
}

#[test]
fn windows_convert_to_nanoseconds() {
    assert_eq!(hours_to_nanos(1), 3_600_000_000_000);
    assert_eq!(hours_to_nanos(-2), -7_200_000_000_000);
    assert_eq!(days_to_nanos(7), 604_800_000_000_000);
    assert_eq!(days_to_nanos(i64::MAX), 9_223_372_036_854_775_807i128 * 86_400_000_000_000);
}

#[test]
fn timestamps_count_nanoseconds() {
    assert_eq!(Timestamp::new(1, 5).total_nanos(), 1_000_000_005);
    assert_eq!(Timestamp::new(-1, 5).total_nanos(), -999_999_995);
    assert_eq!(Timestamp::new(0, 0), Timestamp { secs: 0, nanos: 0 });
}

#[test]
fn window_is_half_open() {
    let start = Timestamp::new(100, 0);
    assert!(is_within_window(start, Timestamp::new(100, 0), 1));
    assert!(is_within_window(start, Timestamp::new(109, 999_999_999), 10_000_000_000));
    assert!(!is_within_window(start, Timestamp::new(110, 0), 10_000_000_000));
    assert!(!is_within_window(start, Timestamp::new(100, 0), 0));
    assert!(is_within_window(start, Timestamp::new(99, 0), 0));
}

#[test]
fn same_text_compares_every_character() {
    assert!(same_text("", ""));
    assert!(same_text("s3cr3t-code", "s3cr3t-code"));
    assert!(!same_text("s3cr3t-code", "s3cr3t-codf"));
    assert!(!same_text("x3cr3t-code", "s3cr3t-code"));
    assert!(!same_text("s3cr3t-code", "s3cr3t-cod"));
    assert!(!same_text("", "a"));
    assert!(same_text("pässwörd", "pässwörd"));
    assert!(!same_text("pässwörd", "passwörd"));
}

#[test]
fn optional_text_is_copied() {
    assert_eq!(clone_opt_text(&None), None);
    assert_eq!(clone_opt_text(&Some("abc".to_string())), Some("abc".to_string()));
}
