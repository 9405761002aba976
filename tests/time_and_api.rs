use alarkhabil_frontend::api::{markdown_parse, parse_timestamp, timestamp_format, RequestMarkdownParse};
use alarkhabil_frontend::config::Config;
use alarkhabil_frontend::unix_time::{UnixTime, MAX_TIMESTAMP};

use chrono::TimeZone;

#[test]
fn utc_string_at_epoch() {
    assert_eq!(UnixTime::new(0).to_utc_datetime_string(), "1970-01-01T00:00:00+0000");
}

#[test]
fn utc_string_of_a_known_instant() {
    assert_eq!(
        UnixTime::new(1431648000).to_utc_datetime_string(),
        "2015-05-15T00:00:00+0000"
    );
}

#[test]
fn local_string_in_utc_at_epoch() {
    assert_eq!(
        UnixTime::new(0).default_format_in_timezone("UTC"),
        "1970-01-01 00:00:00 UTC"
    );
}

#[test]
fn local_string_in_tokyo() {
    assert_eq!(
        UnixTime::new(0).default_format_in_timezone("Asia/Tokyo"),
        "1970-01-01 09:00:00 JST"
    );
}

#[test]
fn utc_string_reparses_to_the_same_instant() {
    for t in [0u64, 1, 59, 86399, 951782400, 1431648000, 4102444800, 253402300799] {
        let s = UnixTime::new(t).to_utc_datetime_string();
        let back = chrono::DateTime::parse_from_str(&s, "%Y-%m-%dT%H:%M:%S%z").unwrap();
        assert_eq!(back.timestamp(), t as i64);
    }
}

#[test]
fn local_string_reparses_to_the_same_instant() {
    let tz: chrono_tz::Tz = "Asia/Tokyo".parse().unwrap();
    for t in [0u64, 1, 86399, 951782400, 1431648000, 4102444800] {
        let s = UnixTime::new(t).default_format_in_timezone("Asia/Tokyo");
        let naive = chrono::NaiveDateTime::parse_from_str(&s[..19], "%Y-%m-%d %H:%M:%S").unwrap();
        let back = tz.from_local_datetime(&naive).single().unwrap();
        assert_eq!(back.timestamp(), t as i64);
    }
}

#[test]
fn largest_timestamp_is_written() {
    let s = UnixTime::new(MAX_TIMESTAMP).to_utc_datetime_string();
    assert!(s.starts_with("+262142-12-30T23:59:59"));
    let local = UnixTime::new(MAX_TIMESTAMP).default_format_in_timezone("Pacific/Kiritimati");
    assert!(local.starts_with("+262142-12-31 13:59:59"));
}

#[test]
fn unix_time_converts_both_ways() {
    let t: UnixTime = 42u64.into();
    assert_eq!(t, UnixTime::new(42));
    let secs: u64 = t.into();
    assert_eq!(secs, 42);
}

#[test]
fn unknown_timezone_falls_back_to_utc() {
    let mut config = Config::default();
    config.server_timezone = "Nowhere/Atlantis".to_string();
    assert_eq!(config.server_timezone(), "UTC");
    config.server_timezone = "Europe/Paris".to_string();
    assert_eq!(config.server_timezone(), "Europe/Paris");
}

#[test]
fn timestamp_format_at_epoch_in_utc() {
    let config = Config::default();
    let f = timestamp_format(Some("0"), &config).unwrap();
    assert_eq!(f.datetime, "1970-01-01T00:00:00+0000");
    assert_eq!(f.formatted, "1970-01-01 00:00:00 UTC");
}

#[test]
fn timestamp_format_defaults_to_epoch() {
    let config = Config::default();
    for q in [None, Some(""), Some("abc"), Some("-5"), Some("1.5")] {
        let f = timestamp_format(q, &config).unwrap();
        assert_eq!(f.datetime, "1970-01-01T00:00:00+0000");
    }
}

#[test]
fn timestamp_format_in_configured_zone() {
    let mut config = Config::default();
    config.server_timezone = "Asia/Tokyo".to_string();
    let f = timestamp_format(Some("1431648000"), &config).unwrap();
    assert_eq!(f.datetime, "2015-05-15T00:00:00+0000");
    assert_eq!(f.formatted, "2015-05-15 09:00:00 JST");
}

#[test]
fn timestamp_format_beyond_dates() {
    let config = Config::default();
    assert!(timestamp_format(Some("18446744073709551615"), &config).is_none());
}

#[test]
fn parse_timestamp_reads_as_u64() {
    assert_eq!(parse_timestamp("0"), 0);
    assert_eq!(parse_timestamp("+12"), 12);
    assert_eq!(parse_timestamp("007"), 7);
    assert_eq!(parse_timestamp("18446744073709551615"), u64::MAX);
    assert_eq!(parse_timestamp("18446744073709551616"), 0);
    assert_eq!(parse_timestamp(""), 0);
    assert_eq!(parse_timestamp("+"), 0);
    assert_eq!(parse_timestamp("-1"), 0);
    assert_eq!(parse_timestamp("12a"), 0);
    assert_eq!(parse_timestamp(" 1"), 0);
    for s in ["0", "+12", "99999999999999999999", "4x", "\u{0661}\u{0662}"] {
        assert_eq!(parse_timestamp(s), s.parse::<u64>().unwrap_or(0));
    }
}

#[test]
fn markdown_parse_wraps_converter_output() {
    let r = markdown_parse(&RequestMarkdownParse { markdown_text: "# Hi".to_string() });
    assert_eq!(r.html, "<h1>Hi</h1>\n");
}

#[test]
fn markdown_parse_of_empty_text() {
    let r = markdown_parse(&RequestMarkdownParse { markdown_text: String::new() });
    assert_eq!(r.html, "");
}
