use druid_io::error::{DecodeCause, DecodeError, PathStep};
use druid_io::json::Json;
use druid_io::query::definitions::{Granularity, GranularityBase, GranularityTyped};

#[test]
fn test_period_granularity() {
    let str = "{\"type\":\"period\",\"period\":\"P2D\",\"timeZone\":\"America/Los_Angeles\"}";

    let test_str = Granularity::period("P2D", "America/Los_Angeles").encode().to_text();
    assert_eq!(test_str.unwrap(), str);
}

#[test]
fn granularity_day_is_read_from_a_bare_string() {
    let j = Json::from_text("\"day\"").unwrap();
    assert_eq!(Granularity::decode(&j), Ok(Granularity::Base(GranularityBase::Day)));
    assert_eq!(Granularity::decode(&j), Ok(Granularity::day()));
}

#[test]
fn granularity_period_is_read_from_a_tagged_object() {
    let j = Json::from_text(
        "{\"type\":\"period\",\"period\":\"P2D\",\"timeZone\":\"America/Los_Angeles\"}",
    )
    .unwrap();
    assert_eq!(
        Granularity::decode(&j),
        Ok(Granularity::Typed(GranularityTyped::Period {
            period: "P2D".to_string(),
            time_zone: "America/Los_Angeles".to_string(),
        }))
    );
}

#[test]
fn granularity_duration_is_written_and_read() {
    let g = Granularity::duration(3600000);
    assert_eq!(g.encode().to_text().unwrap(), "{\"type\":\"duration\",\"duration\":3600000}");
    assert_eq!(Granularity::decode(&g.encode()), Ok(g));
}

#[test]
fn every_named_bucket_is_written_as_its_name_and_read_back() {
    let all = vec![
        (Granularity::all(), "\"all\""),
        (Granularity::node(), "\"none\""),
        (Granularity::second(), "\"second\""),
        (Granularity::minute(), "\"minute\""),
        (Granularity::fifteen_minute(), "\"fifteen_minute\""),
        (Granularity::thirty_minute(), "\"thirty_minute\""),
        (Granularity::hour(), "\"hour\""),
        (Granularity::day(), "\"day\""),
        (Granularity::week(), "\"week\""),
        (Granularity::month(), "\"month\""),
        (Granularity::querter(), "\"quarter\""),
        (Granularity::year(), "\"year\""),
        (Granularity::default(), "\"null\""),
    ];
    for (g, text) in all {
        assert_eq!(g.encode().to_text().unwrap(), text);
        assert_eq!(Granularity::decode(&Json::from_text(text).unwrap()), Ok(g));
    }
}

#[test]
fn a_bucket_name_that_is_not_known_is_refused() {
    let j = Json::from_text("\"fortnight\"").unwrap();
    assert_eq!(
        Granularity::decode(&j),
        Err(DecodeError { path: vec![], cause: DecodeCause::UnknownVariant })
    );
}

#[test]
fn a_structured_granularity_of_unknown_type_is_refused() {
    let j = Json::from_text("{\"type\":\"era\",\"period\":\"P2D\"}").unwrap();
    assert_eq!(
        Granularity::decode(&j),
        Err(DecodeError {
            path: vec![PathStep::Key("type".to_string())],
            cause: DecodeCause::UnknownVariant,
        })
    );
}

#[test]
fn a_period_without_time_zone_misses_a_field() {
    let j = Json::from_text("{\"type\":\"period\",\"period\":\"P2D\"}").unwrap();
    assert_eq!(
        Granularity::decode(&j),
        Err(DecodeError {
            path: vec![PathStep::Key("timeZone".to_string())],
            cause: DecodeCause::MissingField,
        })
    );
}

#[test]
fn a_granularity_that_is_a_number_is_a_type_mismatch() {
    let j = Json::from_text("5").unwrap();
    assert_eq!(
        Granularity::decode(&j),
        Err(DecodeError { path: vec![], cause: DecodeCause::TypeMismatch })
    );
}

#[test]
fn a_duration_that_is_negative_is_a_type_mismatch() {
    let j = Json::from_text("{\"type\":\"duration\",\"duration\":-1}").unwrap();
    assert_eq!(
        Granularity::decode(&j),
        Err(DecodeError {
            path: vec![PathStep::Key("duration".to_string())],
            cause: DecodeCause::TypeMismatch,
        })
    );
}
