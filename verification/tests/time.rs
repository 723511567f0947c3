use chrono::{DateTime, TimeZone, Utc};
use skuff::Timestamp;

fn of_chrono(instant: DateTime<Utc>) -> Timestamp {
    Timestamp::new(instant.timestamp(), instant.timestamp_subsec_nanos())
}

#[test]
fn rfc3339_of_a_whole_second() {
    let t = of_chrono(Utc.with_ymd_and_hms(2025, 9, 1, 12, 0, 0).unwrap());

    assert_eq!(t, Timestamp::new(1_756_728_000, 0));
    assert_eq!(t.to_rfc3339().unwrap(), "2025-09-01T12:00:00Z");
}

#[test]
fn rfc3339_with_a_fraction() {
    assert_eq!(Timestamp::new(0, 500_000_000).to_rfc3339().unwrap(), "1970-01-01T00:00:00.500Z");
    assert_eq!(Timestamp::new(0, 1_000).to_rfc3339().unwrap(), "1970-01-01T00:00:00.000001Z");
    assert_eq!(Timestamp::new(0, 1).to_rfc3339().unwrap(), "1970-01-01T00:00:00.000000001Z");
    assert_eq!(Timestamp::new(-1, 0).to_rfc3339().unwrap(), "1969-12-31T23:59:59Z");
}

#[test]
fn rfc3339_is_what_chrono_serializes() {
    for (secs, nanos) in [(0, 0), (1_756_728_000, 0), (1_700_000_000, 123_456_789), (-86_400, 250_000_000)] {
        let instant = DateTime::<Utc>::from_timestamp(secs, nanos).unwrap();
        let expected = serde_json::to_value(instant).unwrap();

        let text = Timestamp::new(secs, nanos).to_rfc3339().unwrap();

        assert_eq!(serde_json::Value::String(text), expected);
    }
}

#[test]
fn rfc3339_outside_the_years_of_chrono() {
    assert_eq!(Timestamp::new(i64::MAX, 0).to_rfc3339(), None);
    assert_eq!(Timestamp::new(i64::MIN, 0).to_rfc3339(), None);
    assert_eq!(Timestamp::new(0, 2_000_000_000).to_rfc3339(), None);
    assert_eq!(Timestamp::new(0, 1_000_000_000).to_rfc3339(), None);
}

#[test]
fn rfc3339_round_trip() {
    let max = DateTime::<Utc>::MAX_UTC;
    let min = DateTime::<Utc>::MIN_UTC;
    let samples = [
        (0, 0),
        (1_756_728_000, 0),
        (1_700_000_000, 123_456_789),
        (59, 1_500_000_000),
        (1_483_228_799, 1_000_000_000),
        (-1, 999_999_999),
        (-62_167_219_200, 0),
        (-62_167_219_201, 0),
        (253_402_300_799, 0),
        (253_402_300_800, 0),
        (max.timestamp(), max.timestamp_subsec_nanos()),
        (min.timestamp(), min.timestamp_subsec_nanos()),
    ];
    for (secs, nanos) in samples {
        let t = Timestamp::new(secs, nanos);
        let text = t.to_rfc3339().unwrap();

        assert_eq!(Timestamp::parse_rfc3339(&text), Ok(t), "{}", text);
    }
}

#[test]
fn parse_rfc3339_takes_the_offset_into_account() {
    let t = Timestamp::parse_rfc3339("2025-09-01T14:00:00+02:00").unwrap();

    assert_eq!(t, Timestamp::new(1_756_728_000, 0));
}

#[test]
fn parse_rfc3339_rejects_other_text() {
    assert!(Timestamp::parse_rfc3339("yesterday").is_err());
    assert!(Timestamp::parse_rfc3339("").is_err());
    assert!(Timestamp::parse_rfc3339("2025-09-01").is_err());
}

#[test]
fn order_of_instants() {
    let early = Timestamp::new(10, 999_999_999);
    let late = Timestamp::new(11, 0);

    assert!(early.not_after(&late));
    assert!(!late.not_after(&early));
    assert!(early.not_after(&early));
    assert!(Timestamp::new(10, 1).not_after(&Timestamp::new(10, 2)));
    assert!(!Timestamp::new(10, 2).not_after(&Timestamp::new(10, 1)));
    assert!(Timestamp::new(-5, 0).not_after(&Timestamp::new(0, 0)));
}

#[test]
fn an_instant_that_was_read_can_be_written() {
    let texts = [
        "2025-09-01T12:00:00Z",
        "2025-09-01 12:00:00+0000",
        "2025-09-01T23:59:60Z",
        "2016-12-31T23:59:60.250Z",
        "2025-09-01T05:29:60+05:30",
        "2025-09-01T12:00:00.123456789-23:59",
        "0000-01-01T00:00:00Z",
        "9999-12-31T23:59:59.999999999Z",
        "+10000-01-01T00:00:00Z",
        "-0001-12-31T23:59:59Z",
        "+262142-12-31T23:59:59Z",
        "-262143-01-01T00:00:00Z",
        "+262142-12-31T23:59:60+00:00",
    ];
    for text in texts {
        let t = Timestamp::parse_rfc3339(text).unwrap();
        let written = t.to_rfc3339();

        assert!(written.is_some(), "{}", text);
        assert_eq!(Timestamp::parse_rfc3339(&written.unwrap()), Ok(t), "{}", text);
    }
}

#[test]
fn an_instant_beyond_the_years_of_chrono_is_not_read() {
    assert!(Timestamp::parse_rfc3339("+262142-12-31T23:59:59-01:00").is_err());
    assert!(Timestamp::parse_rfc3339("-262143-01-01T00:00:00+01:00").is_err());
    assert!(Timestamp::parse_rfc3339("+262143-01-01T00:00:00Z").is_err());
}
