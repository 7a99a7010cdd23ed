use ddns_sync::config::parse_decimal;
use ddns_sync::config::poll_interval;
use ddns_sync::config::Config;
use ddns_sync::config::DEFAULT_INTERVAL_MS;
use ddns_sync::config::INTERVAL_VARIABLE;
use ddns_sync::config::NAME_VARIABLE;
use ddns_sync::config::TOKEN_VARIABLE;
use ddns_sync::error::SyncError;

#[test]
fn variables_have_their_documented_names() {
    assert_eq!(TOKEN_VARIABLE, "CF_API_TOKEN");
    assert_eq!(NAME_VARIABLE, "DNS_NAME");
    assert_eq!(INTERVAL_VARIABLE, "DURATION_SLEEP_MS");
    assert_eq!(DEFAULT_INTERVAL_MS, 5000);
}

#[test]
fn decimal_numbers_are_read() {
    assert_eq!(parse_decimal("0"), Some(0));
    assert_eq!(parse_decimal("7"), Some(7));
    assert_eq!(parse_decimal("5000"), Some(5000));
    assert_eq!(parse_decimal("000123"), Some(123));
    assert_eq!(parse_decimal("+250"), Some(250));
}

#[test]
fn largest_number_is_read_and_the_next_is_not() {
    assert_eq!(parse_decimal("18446744073709551615"), Some(u64::MAX));
    assert_eq!(parse_decimal("18446744073709551616"), None);
    assert_eq!(parse_decimal("99999999999999999999999"), None);
    assert_eq!(parse_decimal("184467440737095516150"), None);
}

#[test]
fn anything_but_digits_is_refused() {
    for text in ["", "+", "-", "-5", "++5", "5+", " 5", "5 ", "1_000", "12a", "a12", "1.5", "0x10", "٣"] {
        assert_eq!(parse_decimal(text), None, "{:?}", text);
    }
}

#[test]
fn decimal_reading_agrees_with_the_standard_library() {
    let texts = [
        "0", "1", "+1", "42", "5000", "0005", "18446744073709551615", "18446744073709551616",
        "", "+", "-1", "1e3", "1 ", "+-1", "９",
    ];
    for text in texts {
        assert_eq!(parse_decimal(text), text.parse::<u64>().ok(), "{:?}", text);
    }
}

#[test]
fn interval_defaults_where_unset() {
    assert_eq!(poll_interval(None), 5000);
}

#[test]
fn interval_is_the_number_set() {
    assert_eq!(poll_interval(Some("250")), 250);
    assert_eq!(poll_interval(Some("1")), 1);
    assert_eq!(poll_interval(Some("60000")), 60000);
}

#[test]
fn interval_defaults_where_the_setting_is_no_positive_number() {
    assert_eq!(poll_interval(Some("soon")), 5000);
    assert_eq!(poll_interval(Some("")), 5000);
    assert_eq!(poll_interval(Some("-3")), 5000);
    assert_eq!(poll_interval(Some("2.5")), 5000);
    assert_eq!(poll_interval(Some("0")), 5000);
    assert_eq!(poll_interval(Some("99999999999999999999")), 5000);
}

#[test]
fn settings_are_taken_from_the_three_values() {
    let config = Config::from_settings(
        Some("secret".to_string()),
        Some("foo.example.com".to_string()),
        Some("1500".to_string()),
    )
    .unwrap();
    assert_eq!(config.token(), "secret");
    assert_eq!(config.dns_name(), "foo.example.com");
    assert_eq!(config.poll_interval_ms(), 1500);
}

#[test]
fn settings_without_an_interval_use_the_default() {
    let config =
        Config::from_settings(Some("t".to_string()), Some("example.com".to_string()), None)
            .unwrap();
    assert_eq!(config.poll_interval_ms(), 5000);
}

#[test]
fn missing_token_is_a_config_error() {
    let outcome = Config::from_settings(None, Some("example.com".to_string()), None);
    assert_eq!(
        outcome.err(),
        Some(SyncError::ConfigError { variable: "CF_API_TOKEN".to_string() })
    );
}

#[test]
fn missing_name_is_a_config_error() {
    let outcome = Config::from_settings(Some("t".to_string()), None, Some("10".to_string()));
    assert_eq!(outcome.err(), Some(SyncError::ConfigError { variable: "DNS_NAME".to_string() }));
}

#[test]
fn missing_token_is_reported_before_a_missing_name() {
    let outcome = Config::from_settings(None, None, None);
    assert_eq!(
        outcome.err(),
        Some(SyncError::ConfigError { variable: "CF_API_TOKEN".to_string() })
    );
}

#[test]
fn empty_values_are_values() {
    let config = Config::from_settings(Some(String::new()), Some(String::new()), None).unwrap();
    assert_eq!(config.token(), "");
    assert_eq!(config.dns_name(), "");
}

#[test]
fn new_keeps_a_positive_interval_and_replaces_zero() {
    let config = Config::new("t".to_string(), "example.com".to_string(), 30);
    assert_eq!(config.poll_interval_ms(), 30);
    assert_eq!(config.token(), "t");
    assert_eq!(config.dns_name(), "example.com");
    let config = Config::new("t".to_string(), "example.com".to_string(), 0);
    assert_eq!(config.poll_interval_ms(), 5000);
}
