use druid_io::error::{DecodeCause, DecodeError, PathStep};
use druid_io::json::Json;
use druid_io::query::definitions::{
    ExtractFN, Filter, FilterQuerySpec, Granularity, LookupMap, NullHandling, SortingOrder,
};
use druid_io::string_map::StringMap;

fn key(name: &str) -> PathStep {
    PathStep::Key(name.to_string())
}

fn text_of(f: &Filter) -> String {
    f.encode().to_text().unwrap()
}

fn read(text: &str) -> Result<Filter, DecodeError> {
    Filter::decode(&Json::from_text(text).unwrap())
}

fn lookup_map() -> LookupMap {
    let mut map = StringMap::new();
    map.insert("a", "x");
    map.insert("b", "y");
    LookupMap { map, is_one_to_one: true }
}

fn every_extraction_function() -> Vec<ExtractFN> {
    vec![
        ExtractFN::Regex {
            expr: "(\\w+)".to_string(),
            index: 1,
            replace_missing_value: true,
            replace_missing_value_with: Some("none".to_string()),
        },
        ExtractFN::Regex {
            expr: "x".to_string(),
            index: 0,
            replace_missing_value: false,
            replace_missing_value_with: None,
        },
        ExtractFN::Partial { expr: "a.c".to_string() },
        ExtractFN::Substring { index: 2, length: Some(3) },
        ExtractFN::Substring { index: 2, length: None },
        ExtractFN::Strlen,
        ExtractFN::TimeFormat {
            format: Some("yyyy".to_string()),
            time_zone: None,
            locale: Some("en".to_string()),
            granularity: Some(Granularity::day()),
            as_millis: false,
        },
        ExtractFN::TimeFormat {
            format: None,
            time_zone: Some("UTC".to_string()),
            locale: None,
            granularity: Some(Granularity::period("P1D", "UTC")),
            as_millis: true,
        },
        ExtractFN::Time { time_format: "a".to_string(), result_format: "b".to_string(), joda: true },
        ExtractFN::Javascript { function: "function(x) { return x }".to_string() },
        ExtractFN::RegisteredLookup { lookup: "countries".to_string(), retain_missing_value: true },
        ExtractFN::Lookup {
            lookup: lookup_map(),
            retain_missing_value: false,
            injective: true,
            replace_missing_value_with: "?".to_string(),
        },
        ExtractFN::Cascade {
            extraction_fns: vec![
                ExtractFN::Strlen,
                ExtractFN::Cascade { extraction_fns: vec![] },
                ExtractFN::Upper { locale: None },
            ],
        },
        ExtractFN::StringFormat { format: "%s".to_string(), null_handling: Some(NullHandling::EmptyString) },
        ExtractFN::StringFormat { format: "%s".to_string(), null_handling: None },
        ExtractFN::Upper { locale: Some("fr".to_string()) },
        ExtractFN::Lower { locale: None },
        ExtractFN::Bucket { size: 5, offset: 2 },
    ]
}

fn every_filter() -> Vec<Filter> {
    let mut out = vec![
        Filter::selector("user", "Taffe316"),
        Filter::Selector {
            dimension: "user".to_string(),
            value: "x".to_string(),
            extract_fn: Some(ExtractFN::Strlen),
        },
        Filter::column_comparison(vec!["a", "b"]),
        Filter::regex("page", "^A.*"),
        Filter::And { fields: vec![Filter::selector("a", "1"), Filter::True] },
        Filter::Or { fields: vec![] },
        Filter::Not { field: Box::new(Filter::Not { field: Box::new(Filter::True) }) },
        Filter::javascript("n", "function(x) { return x > 1 }"),
        Filter::Search {
            dimension: "page".to_string(),
            query: FilterQuerySpec::Contains { value: "a".to_string(), case_sensitive: true },
        },
        Filter::Search {
            dimension: "page".to_string(),
            query: FilterQuerySpec::InsensitiveContains { value: "a".to_string() },
        },
        Filter::Search {
            dimension: "page".to_string(),
            query: FilterQuerySpec::Fragment { values: vec!["a".to_string(), "b".to_string()], case_sensitive: false },
        },
        Filter::in_values("country", vec!["fr", "de"]),
        Filter::like("page", "A%"),
        Filter::Like {
            dimension: "page".to_string(),
            pattern: "A!%%".to_string(),
            escape: Some("!".to_string()),
            extraction_fn: Some(ExtractFN::Lower { locale: None }),
        },
        Filter::Bound {
            dimension: "age".to_string(),
            lower: "31".to_string(),
            upper: "21".to_string(),
            lower_strict: true,
            upper_strict: false,
            ordering: SortingOrder::Numeric,
            extraction_fn: None,
        },
        Filter::Interval {
            dimension: "__time".to_string(),
            intervals: vec!["2014-10-01T00:00:00.000Z/2014-10-07T00:00:00.000Z".to_string()],
            extraction_fn: None,
        },
        Filter::True,
    ];
    for f in every_extraction_function() {
        out.push(Filter::Selector { dimension: "d".to_string(), value: "v".to_string(), extract_fn: Some(f) });
    }
    out
}

#[test]
fn every_extraction_function_round_trips() {
    for f in every_extraction_function() {
        let j = f.encode();
        assert_eq!(ExtractFN::decode(&j), Ok(f));
    }
}

#[test]
fn every_filter_round_trips() {
    for f in every_filter() {
        let j = f.encode();
        assert_eq!(Filter::decode(&j), Ok(f));
    }
}

#[test]
fn every_filter_round_trips_through_text() {
    for f in every_filter() {
        let text = text_of(&f);
        assert_eq!(read(&text), Ok(f));
    }
}

#[test]
fn lists_of_filters_round_trip() {
    let items = Filter::encode_list(&every_filter());
    assert_eq!(Filter::decode_list(&items), Ok(every_filter()));
}

#[test]
fn selector_is_written_without_the_extraction_function_it_does_not_have() {
    assert_eq!(
        text_of(&Filter::selector("user", "Taffe316")),
        "{\"type\":\"selector\",\"dimension\":\"user\",\"value\":\"Taffe316\"}"
    );
}

#[test]
fn filters_are_written_with_their_discriminator_first() {
    assert_eq!(text_of(&Filter::True), "{\"type\":\"true\"}");
    assert_eq!(
        text_of(&Filter::column_comparison(vec!["a", "b"])),
        "{\"type\":\"columnComparison\",\"dimensions\":[\"a\",\"b\"]}"
    );
    assert_eq!(
        text_of(&Filter::Not { field: Box::new(Filter::regex("p", "x")) }),
        "{\"type\":\"not\",\"field\":{\"type\":\"regex\",\"dimension\":\"p\",\"pattern\":\"x\"}}"
    );
    assert_eq!(
        text_of(&Filter::And { fields: vec![Filter::True, Filter::in_values("c", vec!["x"])] }),
        "{\"type\":\"and\",\"fields\":[{\"type\":\"true\"},{\"type\":\"in\",\"dimension\":\"c\",\"values\":[\"x\"]}]}"
    );
    assert_eq!(
        text_of(&Filter::Bound {
            dimension: "age".to_string(),
            lower: "21".to_string(),
            upper: "31".to_string(),
            lower_strict: false,
            upper_strict: true,
            ordering: SortingOrder::Alphanumeric,
            extraction_fn: Some(ExtractFN::Bucket { size: 5, offset: 2 }),
        }),
        "{\"type\":\"bound\",\"dimension\":\"age\",\"lower\":\"21\",\"upper\":\"31\",\"lowerStrict\":false,\"upperStrict\":true,\"ordering\":\"alphanumeric\",\"extractionFn\":{\"type\":\"bucket\",\"size\":5,\"offset\":2}}"
    );
    assert_eq!(
        text_of(&Filter::Search {
            dimension: "page".to_string(),
            query: FilterQuerySpec::InsensitiveContains { value: "a".to_string() },
        }),
        "{\"type\":\"search\",\"dimension\":\"page\",\"query\":{\"type\":\"insensitive_contains\",\"value\":\"a\"}}"
    );
}

#[test]
fn extraction_functions_are_written_in_camel_case() {
    let f = ExtractFN::TimeFormat {
        format: None,
        time_zone: Some("UTC".to_string()),
        locale: None,
        granularity: Some(Granularity::day()),
        as_millis: true,
    };
    assert_eq!(
        f.encode().to_text().unwrap(),
        "{\"type\":\"timeFormat\",\"timeZone\":\"UTC\",\"granularity\":\"day\",\"asMillis\":true}"
    );
    let l = ExtractFN::Lookup {
        lookup: lookup_map(),
        retain_missing_value: false,
        injective: true,
        replace_missing_value_with: "?".to_string(),
    };
    assert_eq!(
        l.encode().to_text().unwrap(),
        "{\"type\":\"lookup\",\"lookup\":{\"type\":\"map\",\"map\":{\"a\":\"x\",\"b\":\"y\"},\"isOneToOne\":true},\"retainMissingValue\":false,\"injective\":true,\"replaceMissingValueWith\":\"?\"}"
    );
    assert_eq!(ExtractFN::Strlen.encode().to_text().unwrap(), "{\"type\":\"strlen\"}");
}

#[test]
fn an_unknown_discriminator_is_refused() {
    assert_eq!(
        read("{\"type\":\"between\",\"dimension\":\"a\"}"),
        Err(DecodeError { path: vec![key("type")], cause: DecodeCause::UnknownVariant })
    );
    assert_eq!(
        read("{\"type\":\"Selector\",\"dimension\":\"a\",\"value\":\"b\"}"),
        Err(DecodeError { path: vec![key("type")], cause: DecodeCause::UnknownVariant })
    );
    assert_eq!(
        ExtractFN::decode(&Json::from_text("{\"type\":\"reverse\"}").unwrap()),
        Err(DecodeError { path: vec![key("type")], cause: DecodeCause::UnknownVariant })
    );
}

#[test]
fn an_unknown_discriminator_deep_inside_is_reported_with_its_path() {
    assert_eq!(
        read("{\"type\":\"and\",\"fields\":[{\"type\":\"true\"},{\"type\":\"not\",\"field\":{\"type\":\"nope\"}}]}"),
        Err(DecodeError {
            path: vec![key("fields"), PathStep::Index(1), key("field"), key("type")],
            cause: DecodeCause::UnknownVariant,
        })
    );
    assert_eq!(
        read("{\"type\":\"selector\",\"dimension\":\"a\",\"value\":\"b\",\"extractFn\":{\"type\":\"cascade\",\"extractionFns\":[{\"type\":\"oops\"}]}}"),
        Err(DecodeError {
            path: vec![key("extractFn"), key("extractionFns"), PathStep::Index(0), key("type")],
            cause: DecodeCause::UnknownVariant,
        })
    );
}

#[test]
fn a_missing_discriminator_is_a_missing_field() {
    assert_eq!(
        read("{\"dimension\":\"a\",\"value\":\"b\"}"),
        Err(DecodeError { path: vec![key("type")], cause: DecodeCause::MissingField })
    );
}

#[test]
fn a_missing_required_member_is_a_missing_field() {
    assert_eq!(
        read("{\"type\":\"selector\",\"dimension\":\"a\"}"),
        Err(DecodeError { path: vec![key("value")], cause: DecodeCause::MissingField })
    );
    assert_eq!(
        read("{\"type\":\"not\"}"),
        Err(DecodeError { path: vec![key("field")], cause: DecodeCause::MissingField })
    );
}

#[test]
fn the_first_member_that_fails_is_reported() {
    assert_eq!(
        read("{\"type\":\"bound\",\"dimension\":\"a\",\"upper\":5}"),
        Err(DecodeError { path: vec![key("lower")], cause: DecodeCause::MissingField })
    );
}

#[test]
fn a_member_of_the_wrong_type_is_a_type_mismatch() {
    assert_eq!(
        read("{\"type\":\"selector\",\"dimension\":5,\"value\":\"b\"}"),
        Err(DecodeError { path: vec![key("dimension")], cause: DecodeCause::TypeMismatch })
    );
    assert_eq!(
        read("{\"type\":\"selector\",\"dimension\":null,\"value\":\"b\"}"),
        Err(DecodeError { path: vec![key("dimension")], cause: DecodeCause::TypeMismatch })
    );
    assert_eq!(
        read("{\"type\":\"in\",\"dimension\":\"a\",\"values\":[\"x\",7]}"),
        Err(DecodeError { path: vec![key("values"), PathStep::Index(1)], cause: DecodeCause::TypeMismatch })
    );
    assert_eq!(
        read("{\"type\":\"and\",\"fields\":{}}"),
        Err(DecodeError { path: vec![key("fields")], cause: DecodeCause::TypeMismatch })
    );
    assert_eq!(
        read("{\"type\":7}"),
        Err(DecodeError { path: vec![key("type")], cause: DecodeCause::TypeMismatch })
    );
    assert_eq!(read("[]"), Err(DecodeError { path: vec![], cause: DecodeCause::TypeMismatch }));
    assert_eq!(
        read("{\"type\":\"bound\",\"dimension\":\"a\",\"lower\":\"1\",\"upper\":\"2\",\"lowerStrict\":\"no\",\"upperStrict\":true,\"ordering\":\"numeric\"}"),
        Err(DecodeError { path: vec![key("lowerStrict")], cause: DecodeCause::TypeMismatch })
    );
    assert_eq!(
        read("{\"type\":\"bound\",\"dimension\":\"a\",\"lower\":\"1\",\"upper\":\"2\",\"lowerStrict\":false,\"upperStrict\":true,\"ordering\":\"random\"}"),
        Err(DecodeError { path: vec![key("ordering")], cause: DecodeCause::UnknownVariant })
    );
}

#[test]
fn an_optional_member_may_be_absent_or_null() {
    let absent = read("{\"type\":\"selector\",\"dimension\":\"a\",\"value\":\"b\"}");
    let null = read("{\"type\":\"selector\",\"dimension\":\"a\",\"value\":\"b\",\"extractFn\":null}");
    assert_eq!(absent, Ok(Filter::selector("a", "b")));
    assert_eq!(null, Ok(Filter::selector("a", "b")));
}

#[test]
fn members_that_are_not_known_are_passed_over() {
    assert_eq!(
        read("{\"extra\":[1,2],\"value\":\"b\",\"type\":\"selector\",\"dimension\":\"a\"}"),
        Ok(Filter::selector("a", "b"))
    );
}

#[test]
fn bound_does_not_ask_that_lower_is_below_upper() {
    let f = Filter::Bound {
        dimension: "age".to_string(),
        lower: "31".to_string(),
        upper: "21".to_string(),
        lower_strict: false,
        upper_strict: false,
        ordering: SortingOrder::Numeric,
        extraction_fn: None,
    };
    assert_eq!(Filter::decode(&f.encode()), Ok(f));
}
