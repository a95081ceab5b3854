use chanvoy::time_window::{parse_time_window, TimeWindowDefaultUnit};

#[test]
fn bare_integer_minutes_default() {
    assert_eq!(
        parse_time_window("30", TimeWindowDefaultUnit::Minutes).unwrap(),
        30 * 60
    );
    assert_eq!(
        parse_time_window("0", TimeWindowDefaultUnit::Minutes).unwrap(),
        0
    );
}

#[test]
fn bare_integer_seconds_default() {
    assert_eq!(
        parse_time_window("30", TimeWindowDefaultUnit::Seconds).unwrap(),
        30
    );
}

#[test]
fn suffix_seconds() {
    assert_eq!(
        parse_time_window("30s", TimeWindowDefaultUnit::Minutes).unwrap(),
        30
    );
}

#[test]
fn suffix_minutes_lowercase() {
    assert_eq!(
        parse_time_window("5m", TimeWindowDefaultUnit::Minutes).unwrap(),
        5 * 60
    );
}

#[test]
fn suffix_hours() {
    assert_eq!(
        parse_time_window("4h", TimeWindowDefaultUnit::Minutes).unwrap(),
        4 * 3600
    );
}

#[test]
fn suffix_days() {
    assert_eq!(
        parse_time_window("2d", TimeWindowDefaultUnit::Minutes).unwrap(),
        2 * 86400
    );
}

#[test]
fn uppercase_m_rejected() {
    let err = parse_time_window("30M", TimeWindowDefaultUnit::Minutes).unwrap_err();
    assert!(
        err.contains("uppercase 'M'"),
        "diagnostic should name the ambiguity, got: {err}"
    );
}

#[test]
fn mo_lowercase_rejected() {
    let err = parse_time_window("3mo", TimeWindowDefaultUnit::Minutes).unwrap_err();
    assert!(
        err.contains("'mo'"),
        "diagnostic should name 'mo' suffix, got: {err}"
    );
}

#[test]
fn mo_uppercase_rejected() {
    let err = parse_time_window("3MO", TimeWindowDefaultUnit::Minutes).unwrap_err();
    assert!(err.to_ascii_lowercase().contains("'mo'"));
}

#[test]
fn mo_mixed_case_rejected() {
    for variant in ["3Mo", "3mO"] {
        let err = parse_time_window(variant, TimeWindowDefaultUnit::Minutes).unwrap_err();
        assert!(
            err.to_ascii_lowercase().contains("'mo'"),
            "variant {variant} should reject as months suffix; got: {err}"
        );
    }
}

#[test]
fn empty_rejected() {
    let err = parse_time_window("", TimeWindowDefaultUnit::Minutes).unwrap_err();
    assert!(err.contains("empty"));
}

#[test]
fn unknown_suffix_rejected() {
    let err = parse_time_window("5w", TimeWindowDefaultUnit::Minutes).unwrap_err();
    assert!(err.contains("unknown suffix"), "got: {err}");
}

#[test]
fn lib_whitespace_trimmed() {
    assert_eq!(
        parse_time_window("  5m  ", TimeWindowDefaultUnit::Minutes).unwrap(),
        5 * 60
    );
}

#[test]
fn invalid_integer_with_known_suffix_rejected() {
    let err = parse_time_window("foo5m", TimeWindowDefaultUnit::Minutes).unwrap_err();
    assert!(
        err.contains("invalid integer"),
        "diagnostic should name invalid integer; got: {err}"
    );
}

#[test]
fn purely_alphabetic_rejected() {
    let err = parse_time_window("foo", TimeWindowDefaultUnit::Minutes).unwrap_err();
    assert!(
        err.contains("unknown suffix") || err.contains("invalid integer"),
        "diagnostic should loud-fail on non-numeric input; got: {err}"
    );
}

#[test]
fn overflow_rejected() {
    let err =
        parse_time_window("99999999999999999999d", TimeWindowDefaultUnit::Minutes).unwrap_err();
    assert!(err.contains("invalid integer") || err.contains("overflow"));
}

#[test]
fn overflowing_products_name_the_overflow() {
    let err = parse_time_window("18446744073709551615d", TimeWindowDefaultUnit::Minutes).unwrap_err();
    assert_eq!(
        err,
        "time-window value \"18446744073709551615d\" overflows u64 seconds (max \u{2248} 5.84e11 years; pick a saner window)"
    );
    assert_eq!(
        parse_time_window("18446744073709551615s", TimeWindowDefaultUnit::Minutes).unwrap(),
        u64::MAX
    );
}

#[test]
fn a_sign_is_read_as_an_integer_is() {
    assert_eq!(
        parse_time_window("+5m", TimeWindowDefaultUnit::Seconds).unwrap(),
        300
    );
    let err = parse_time_window("-5m", TimeWindowDefaultUnit::Seconds).unwrap_err();
    assert_eq!(
        err,
        "time-window value \"-5m\" contains invalid integer \"-5\": invalid digit found in string"
    );
}

#[test]
fn a_suffix_without_a_number_is_refused() {
    let err = parse_time_window("m", TimeWindowDefaultUnit::Minutes).unwrap_err();
    assert!(err.contains("cannot parse integer from empty string"));
}
