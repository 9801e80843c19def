use stationboard::timestamp::Timestamp;

#[test]
fn same_instant_across_offsets() {
    let cest = Timestamp::parse_str("2024-04-19T12:09:00+0200").unwrap();
    let utc = Timestamp::parse_str("2024-04-19T10:09:00+0000").unwrap();
    assert!(cest.same_instant(&utc));
    assert_ne!(cest, utc);

    let other = Timestamp::parse_str("2024-04-19T10:09:01+0000").unwrap();
    assert!(!cest.same_instant(&other));
}

#[test]
fn parse_reads_every_field() {
    let t = Timestamp::parse_str("2024-04-19T12:09:00+0200").unwrap();
    assert_eq!(
        t,
        Timestamp { year: 2024, month: 4, day: 19, hour: 12, minute: 9, second: 0, offset_minutes: 120 }
    );
    let t = Timestamp::parse_str("1999-12-31T23:59:59-0330").unwrap();
    assert_eq!(
        t,
        Timestamp {
            year: 1999,
            month: 12,
            day: 31,
            hour: 23,
            minute: 59,
            second: 59,
            offset_minutes: -210,
        }
    );
}

#[test]
fn parse_refuses_malformed_text() {
    assert_eq!(Timestamp::parse_str(""), None);
    assert_eq!(Timestamp::parse_str("2024-04-19 12:09:00+0200"), None);
    assert_eq!(Timestamp::parse_str("2024-04-19T12:09:00"), None);
    assert_eq!(Timestamp::parse_str("2024-13-19T12:09:00+0200"), None);
    assert_eq!(Timestamp::parse_str("2024-04-31T12:09:00+0200"), None);
    assert_eq!(Timestamp::parse_str("2023-02-29T12:09:00+0200"), None);
    assert_eq!(Timestamp::parse_str("2024-04-19T24:09:00+0200"), None);
    assert_eq!(Timestamp::parse_str("2024-04-19T12:60:00+0200"), None);
    assert_eq!(Timestamp::parse_str("2024-04-19T12:09:00+2400"), None);
    assert_eq!(Timestamp::parse_str("2024-04-19T12:09:00*0200"), None);
}

#[test]
fn leap_day_parses() {
    let t = Timestamp::parse_str("2024-02-29T00:00:00+0000").unwrap();
    assert_eq!(t.day, 29);
    let t2 = Timestamp::parse_str("2000-02-29T00:00:00+0000").unwrap();
    assert_eq!(t2.year, 2000);
}

#[test]
fn format_inverts_parse() {
    for text in [
        "2024-04-19T12:09:00+0200",
        "2024-04-19T10:09:00+0000",
        "1999-12-31T23:59:59-0330",
        "2024-02-29T00:00:00+0000",
    ] {
        let t = Timestamp::parse_str(text).unwrap();
        assert_eq!(t.format_string(), text);
    }
}

#[test]
fn epoch_seconds_matches_unix_time() {
    // 62167219200 is the count of seconds from day zero to the Unix epoch;
    // 1713521340 is the Unix time the wire gave for this departure.
    let t = Timestamp::parse_str("2024-04-19T12:09:00+0200").unwrap();
    assert_eq!(t.epoch_seconds(), 1713521340 + 62167219200);
    let epoch = Timestamp::parse_str("1970-01-01T00:00:00+0000").unwrap();
    assert_eq!(epoch.epoch_seconds(), 62167219200);
}

#[test]
fn hhmm_is_the_wall_clock() {
    let t = Timestamp::parse_str("2024-04-19T12:09:00+0200").unwrap();
    assert_eq!(t.hhmm_string(), "12:09");
    let t = Timestamp::parse_str("2024-04-19T07:05:59+0200").unwrap();
    assert_eq!(t.hhmm_string(), "07:05");
}
