use druid_io::error::{DecodeCause, DecodeError, PathStep};
use druid_io::json::Json;
use druid_io::query::definitions::{Interval, Timestamp};

fn stamp(y: i32, mo: u32, d: u32, h: u32, mi: u32, s: u32, ms: u32) -> Timestamp {
    Timestamp::from_ymd_hms_milli(y, mo, d, h, mi, s, ms).unwrap()
}

#[test]
fn interval_is_written_as_two_timestamps_around_a_slash() {
    let i = Interval { from: stamp(2015, 9, 12, 8, 23, 32, 96), to: stamp(2015, 9, 12, 15, 36, 27, 96) };
    assert_eq!(i.to_text(), "2015-09-12T08:23:32.096/2015-09-12T15:36:27.096");
    assert_eq!(
        i.encode().to_text().unwrap(),
        "\"2015-09-12T08:23:32.096/2015-09-12T15:36:27.096\""
    );
}

#[test]
fn interval_with_millisecond_precision_round_trips() {
    let cases = vec![
        (stamp(2015, 9, 12, 8, 23, 32, 96), stamp(2015, 9, 12, 15, 36, 27, 96)),
        (stamp(0, 1, 1, 0, 0, 0, 0), stamp(9999, 12, 31, 23, 59, 59, 999)),
        (stamp(2016, 2, 29, 12, 0, 0, 1), stamp(2000, 2, 29, 0, 0, 0, 10)),
        (stamp(1970, 1, 1, 0, 0, 0, 0), stamp(1970, 1, 1, 0, 0, 0, 0)),
    ];
    for (from, to) in cases {
        let i = Interval { from, to };
        assert_eq!(Interval::decode(&i.encode()), Ok(Interval { from, to }));
        assert_eq!(Interval::from_text(&i.to_text()), Ok(Interval { from, to }));
    }
}

#[test]
fn every_field_is_written_with_leading_zeros() {
    assert_eq!(stamp(7, 1, 2, 3, 4, 5, 6).to_text(), "0007-01-02T03:04:05.006");
    assert_eq!(stamp(9999, 12, 31, 23, 59, 59, 999).to_text(), "9999-12-31T23:59:59.999");
}

#[test]
fn what_is_finer_than_milliseconds_is_cut_off() {
    let t = Timestamp::new(2015, 9, 12, 8, 23, 32, 96_789_123).unwrap();
    assert_eq!(t.to_text(), "2015-09-12T08:23:32.096");
    let back = Timestamp::from_text(&t.to_text()).unwrap();
    assert_eq!(back.nanosecond(), 96_000_000);
    assert_eq!(back, stamp(2015, 9, 12, 8, 23, 32, 96));
}

#[test]
fn a_timestamp_may_be_read_with_a_finer_or_without_a_fraction() {
    let t = Timestamp::from_text("2015-09-12T08:23:32.096789").unwrap();
    assert_eq!(t.nanosecond(), 96_789_000);
    let u = Timestamp::from_text("2015-09-12T08:23:32").unwrap();
    assert_eq!(u, stamp(2015, 9, 12, 8, 23, 32, 0));
    assert_eq!(
        (u.year(), u.month(), u.day(), u.hour(), u.minute(), u.second(), u.nanosecond()),
        (2015, 9, 12, 8, 23, 32, 0)
    );
}

#[test]
fn timestamps_that_denote_no_time_are_refused() {
    assert!(Timestamp::new(2015, 2, 29, 0, 0, 0, 0).is_none());
    assert!(Timestamp::new(1900, 2, 29, 0, 0, 0, 0).is_none());
    assert!(Timestamp::new(2000, 2, 29, 0, 0, 0, 0).is_some());
    assert!(Timestamp::new(2016, 2, 29, 0, 0, 0, 0).is_some());
    assert!(Timestamp::new(2015, 4, 31, 0, 0, 0, 0).is_none());
    assert!(Timestamp::new(2015, 4, 30, 0, 0, 0, 0).is_some());
    assert!(Timestamp::new(2015, 0, 1, 0, 0, 0, 0).is_none());
    assert!(Timestamp::new(2015, 13, 1, 0, 0, 0, 0).is_none());
    assert!(Timestamp::new(2015, 1, 0, 0, 0, 0, 0).is_none());
    assert!(Timestamp::new(2015, 1, 32, 0, 0, 0, 0).is_none());
    assert!(Timestamp::new(2015, 1, 1, 24, 0, 0, 0).is_none());
    assert!(Timestamp::new(2015, 1, 1, 0, 60, 0, 0).is_none());
    assert!(Timestamp::new(2015, 1, 1, 0, 0, 60, 0).is_none());
    assert!(Timestamp::new(2015, 1, 1, 0, 0, 0, 1_000_000_000).is_none());
    assert!(Timestamp::new(-1, 1, 1, 0, 0, 0, 0).is_none());
    assert!(Timestamp::new(10000, 1, 1, 0, 0, 0, 0).is_none());
    assert!(Timestamp::from_ymd_hms_milli(2015, 1, 1, 0, 0, 0, 1000).is_none());
    assert!(Timestamp::from_ymd_hms_milli(2015, 1, 1, 0, 0, 0, 999).is_some());
}

fn malformed() -> DecodeError {
    DecodeError { path: vec![], cause: DecodeCause::MalformedInterval }
}

#[test]
fn an_interval_needs_exactly_one_slash() {
    assert_eq!(Interval::from_text("2015-09-12T08:23:32.096"), Err(malformed()));
    assert_eq!(Interval::from_text(""), Err(malformed()));
    assert_eq!(
        Interval::from_text("2015-09-12T08:23:32.096/2015-09-12T15:36:27.096/2015-09-12T15:36:27.096"),
        Err(malformed())
    );
    assert_eq!(Interval::from_text("2015-09-12T08:23:32.096/2015-09-12T15:36:27.096/"), Err(malformed()));
}

#[test]
fn both_halves_of_an_interval_have_to_be_timestamps() {
    assert_eq!(Interval::from_text("yesterday/2015-09-12T15:36:27.096"), Err(malformed()));
    assert_eq!(Interval::from_text("2015-09-12T08:23:32.096/today"), Err(malformed()));
    assert_eq!(Interval::from_text("/"), Err(malformed()));
    assert_eq!(Interval::from_text("2015-02-30T08:23:32.096/2015-09-12T15:36:27.096"), Err(malformed()));
    assert_eq!(Interval::from_text("+12345-01-01T00:00:00/2015-09-12T15:36:27.096"), Err(malformed()));
}

#[test]
fn an_interval_that_is_no_string_is_a_type_mismatch() {
    assert_eq!(
        Interval::decode(&Json::from_text("17").unwrap()),
        Err(DecodeError { path: vec![], cause: DecodeCause::TypeMismatch })
    );
}

#[test]
fn a_list_of_intervals_reports_the_first_that_is_malformed() {
    let j = Json::from_text(
        "[\"2015-09-12T08:23:32.096/2015-09-12T15:36:27.096\",\"a/b\",\"c\"]",
    )
    .unwrap();
    let items = match &j {
        Json::Array(items) => items,
        _ => panic!("not an array"),
    };
    assert_eq!(
        Interval::decode_list(items),
        Err(DecodeError { path: vec![PathStep::Index(1)], cause: DecodeCause::MalformedInterval })
    );
}
