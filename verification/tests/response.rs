use druid_io::client::{
    datasource_metadata_response, group_by_response, is_error_report, query_response,
    response_document, scan_response, search_response, segment_metadata_response,
    time_boundary_response, timeseries_response, top_n_response,
};
use druid_io::codec::{
    count_member, opt_text_member, read_members, text_member,
};
use druid_io::error::{CodecError, DecodeCause, DecodeError, PathStep};
use druid_io::json::{Json, JsonNumber, Member};
use druid_io::query::definitions::{Granularity, GranularityBase};
use druid_io::query::response::{
    AggregatorDefinition, ColumnDefinition, DimValue, DruidListResponse, GroupByResponse,
    MetadataResponse, MinMaxTime, ScanResponse, SegmentMetadataResponse, TimeBoundaryResponse,
    TimeseriesResponse, TimestampSpec,
};

#[derive(Debug, PartialEq)]
struct WikiPage {
    page: String,
    user: Option<String>,
    count: usize,
}

fn wiki_page(j: &Json) -> Result<WikiPage, DecodeError> {
    let m = read_members(j)?;
    Ok(WikiPage {
        page: text_member(m, "page")?,
        user: opt_text_member(m, "user")?,
        count: count_member(m, "count")?,
    })
}

fn key(name: &str) -> PathStep {
    PathStep::Key(name.to_string())
}

fn failure(path: Vec<PathStep>, cause: DecodeCause) -> CodecError {
    CodecError::DecodeFailure(DecodeError { path, cause })
}

#[test]
fn a_record_may_hold_more_than_is_asked_for_and_less_than_is_optional() {
    let text = "[{\"timestamp\":\"2015-09-12T00:00:00.000Z\",\"result\":[\
        {\"page\":\"A\",\"user\":\"u\",\"count\":3,\"extra\":{\"x\":[1]}},\
        {\"page\":\"B\",\"count\":1},\
        {\"count\":0,\"user\":null,\"page\":\"C\"}]}]";
    let out = top_n_response(text, &wiki_page).unwrap();
    assert_eq!(
        out,
        vec![DruidListResponse {
            timestamp: "2015-09-12T00:00:00.000Z".to_string(),
            result: vec![
                WikiPage { page: "A".to_string(), user: Some("u".to_string()), count: 3 },
                WikiPage { page: "B".to_string(), user: None, count: 1 },
                WikiPage { page: "C".to_string(), user: None, count: 0 },
            ],
        }]
    );
}

#[test]
fn a_record_that_misses_a_required_member_fails_with_its_path() {
    let text = "[{\"timestamp\":\"t\",\"result\":[{\"page\":\"A\",\"count\":3},{\"page\":\"B\"}]}]";
    assert_eq!(
        top_n_response(text, &wiki_page),
        Err(failure(
            vec![PathStep::Index(0), key("result"), PathStep::Index(1), key("count")],
            DecodeCause::MissingField
        ))
    );
    let null = "[{\"timestamp\":\"t\",\"result\":[{\"page\":null,\"count\":3}]}]";
    assert_eq!(
        top_n_response(null, &wiki_page),
        Err(failure(
            vec![PathStep::Index(0), key("result"), PathStep::Index(0), key("page")],
            DecodeCause::TypeMismatch
        ))
    );
}

#[test]
fn an_envelope_that_is_misshapen_fails_before_its_records_are_read() {
    assert_eq!(
        top_n_response("[{\"result\":[{\"page\":1}]}]", &wiki_page),
        Err(failure(vec![PathStep::Index(0), key("timestamp")], DecodeCause::MissingField))
    );
    assert_eq!(
        top_n_response("[{\"timestamp\":\"t\",\"result\":{}}]", &wiki_page),
        Err(failure(vec![PathStep::Index(0), key("result")], DecodeCause::TypeMismatch))
    );
    assert_eq!(
        top_n_response("{\"timestamp\":\"t\",\"result\":[]}", &wiki_page),
        Err(failure(vec![], DecodeCause::TypeMismatch))
    );
    assert_eq!(top_n_response("[", &wiki_page), Err(failure(vec![], DecodeCause::Syntax)));
    assert_eq!(top_n_response("[]", &wiki_page), Ok(vec![]));
}

#[test]
fn a_document_with_an_error_at_the_top_is_a_remote_error() {
    let text = "{\"error\":\"Unknown exception\",\"errorMessage\":\"boom\",\"host\":null}";
    let expected = Err(CodecError::RemoteError { document: text.to_string() });
    assert_eq!(response_document(text), expected);
    assert_eq!(top_n_response(text, &wiki_page), Err(CodecError::RemoteError { document: text.to_string() }));
    assert_eq!(group_by_response(text, &wiki_page), Err(CodecError::RemoteError { document: text.to_string() }));
    assert_eq!(scan_response(text, &wiki_page), Err(CodecError::RemoteError { document: text.to_string() }));
    assert_eq!(timeseries_response(text, &wiki_page), Err(CodecError::RemoteError { document: text.to_string() }));
    assert_eq!(query_response(text, &wiki_page), Err(CodecError::RemoteError { document: text.to_string() }));
    assert_eq!(search_response(text), Err(CodecError::RemoteError { document: text.to_string() }));
    assert_eq!(time_boundary_response(text), Err(CodecError::RemoteError { document: text.to_string() }));
    assert_eq!(segment_metadata_response(text), Err(CodecError::RemoteError { document: text.to_string() }));
    assert_eq!(datasource_metadata_response(text), Err(CodecError::RemoteError { document: text.to_string() }));
}

#[test]
fn an_error_is_a_remote_error_whatever_else_the_document_holds() {
    for text in [
        "{\"error\":null}",
        "{\"timestamp\":\"t\",\"result\":[],\"error\":{}}",
        "{\"error\":1,\"error\":2}",
        " { \"a\" : 1 , \"error\" : \"x\" } ",
    ] {
        assert_eq!(response_document(text), Err(CodecError::RemoteError { document: text.to_string() }));
    }
}

#[test]
fn an_error_further_down_is_no_remote_error() {
    assert!(response_document("[{\"error\":\"x\"}]").is_ok());
    assert!(response_document("{\"result\":{\"error\":\"x\"}}").is_ok());
    assert!(response_document("{\"Error\":\"x\"}").is_ok());
    assert!(response_document("\"error\"").is_ok());
    assert!(is_error_report(&Json::from_text("{\"error\":1}").unwrap()));
    assert!(!is_error_report(&Json::from_text("[\"error\"]").unwrap()));
}

#[test]
fn group_by_rows_are_read_from_their_events() {
    let text = "[{\"version\":\"v1\",\"timestamp\":\"t1\",\"event\":{\"page\":\"A\",\"count\":3}},\
                 {\"timestamp\":\"t2\",\"event\":{\"page\":\"B\",\"count\":4,\"user\":\"u\"}}]";
    assert_eq!(
        group_by_response(text, &wiki_page),
        Ok(vec![
            GroupByResponse { timestamp: "t1".to_string(), event: WikiPage { page: "A".to_string(), user: None, count: 3 } },
            GroupByResponse {
                timestamp: "t2".to_string(),
                event: WikiPage { page: "B".to_string(), user: Some("u".to_string()), count: 4 },
            },
        ])
    );
    assert_eq!(
        group_by_response("[{\"timestamp\":\"t1\",\"event\":{\"page\":\"A\"}}]", &wiki_page),
        Err(failure(vec![PathStep::Index(0), key("event"), key("count")], DecodeCause::MissingField))
    );
    assert_eq!(
        group_by_response("[{\"timestamp\":\"t1\"}]", &wiki_page),
        Err(failure(vec![PathStep::Index(0), key("event")], DecodeCause::MissingField))
    );
}

#[test]
fn timeseries_rows_may_come_without_a_timestamp() {
    let text = "[{\"timestamp\":\"t1\",\"result\":{\"page\":\"A\",\"count\":3}},\
                 {\"timestamp\":null,\"result\":{\"page\":\"total\",\"count\":3}},\
                 {\"result\":{\"page\":\"total\",\"count\":3}}]";
    let out = timeseries_response(text, &wiki_page).unwrap();
    assert_eq!(out.len(), 3);
    assert_eq!(out[0].timestamp, Some("t1".to_string()));
    assert_eq!(out[1].timestamp, None);
    assert_eq!(out[2], TimeseriesResponse { timestamp: None, result: WikiPage { page: "total".to_string(), user: None, count: 3 } });
}

#[test]
fn scan_rows_are_read_segment_by_segment() {
    let text = "[{\"segmentId\":\"s1\",\"columns\":[\"page\",\"count\"],\"events\":[{\"page\":\"A\",\"count\":1}]}]";
    assert_eq!(
        scan_response(text, &wiki_page),
        Ok(vec![ScanResponse {
            segment_id: "s1".to_string(),
            columns: vec!["page".to_string(), "count".to_string()],
            events: vec![WikiPage { page: "A".to_string(), user: None, count: 1 }],
        }])
    );
    assert_eq!(
        scan_response("[{\"segmentId\":\"s1\",\"columns\":[\"page\",3],\"events\":[]}]", &wiki_page),
        Err(failure(vec![PathStep::Index(0), key("columns"), PathStep::Index(1)], DecodeCause::TypeMismatch))
    );
    assert_eq!(
        scan_response("[{\"segmentId\":\"s1\",\"columns\":[],\"events\":[{\"count\":1}]}]", &wiki_page),
        Err(failure(vec![PathStep::Index(0), key("events"), PathStep::Index(0), key("page")], DecodeCause::MissingField))
    );
}

#[test]
fn any_answer_may_be_read_as_a_list_of_records() {
    assert_eq!(
        query_response("[{\"page\":\"A\",\"count\":1}]", &wiki_page),
        Ok(vec![WikiPage { page: "A".to_string(), user: None, count: 1 }])
    );
    assert_eq!(
        query_response("[{\"page\":\"A\",\"count\":1},7]", &wiki_page),
        Err(failure(vec![PathStep::Index(1)], DecodeCause::TypeMismatch))
    );
}

#[test]
fn a_decoder_may_be_a_closure() {
    let pages = |j: &Json| -> Result<String, DecodeError> { text_member(read_members(j)?, "page") };
    let j = Json::from_text("{\"timestamp\":\"t\",\"result\":[{\"page\":\"A\"},{\"page\":\"B\"}]}").unwrap();
    assert_eq!(
        DruidListResponse::decode(&j, &pages),
        Ok(DruidListResponse { timestamp: "t".to_string(), result: vec!["A".to_string(), "B".to_string()] })
    );
    let k = Json::from_text("{\"timestamp\":\"t\",\"result\":{\"page\":\"A\"}}").unwrap();
    assert_eq!(
        MetadataResponse::decode(&k, &pages),
        Ok(MetadataResponse { timestamp: "t".to_string(), result: "A".to_string() })
    );
}

#[test]
fn search_answers_hold_values_and_counts() {
    let text = "[{\"timestamp\":\"t\",\"result\":[{\"dimension\":\"page\",\"value\":\"500\",\"count\":2},{\"dimension\":\"n\",\"value\":5,\"count\":1}]}]";
    assert_eq!(
        search_response(text),
        Ok(vec![DruidListResponse {
            timestamp: "t".to_string(),
            result: vec![
                DimValue { dimension: "page".to_string(), value: Json::Text("500".to_string()), count: 2 },
                DimValue { dimension: "n".to_string(), value: Json::Number(JsonNumber::Unsigned(5)), count: 1 },
            ],
        }])
    );
    assert_eq!(
        search_response("[{\"timestamp\":\"t\",\"result\":[{\"dimension\":\"page\",\"count\":2}]}]"),
        Err(failure(vec![PathStep::Index(0), key("result"), PathStep::Index(0), key("value")], DecodeCause::MissingField))
    );
}

#[test]
fn time_boundary_answers_hold_the_ends_that_were_asked_for() {
    assert_eq!(
        time_boundary_response("[{\"timestamp\":\"t\",\"result\":{\"maxTime\":\"b\",\"minTime\":\"a\"}}]"),
        Ok(vec![TimeBoundaryResponse {
            timestamp: "t".to_string(),
            result: MinMaxTime { max_time: Some("b".to_string()), min_time: Some("a".to_string()) },
        }])
    );
    assert_eq!(
        time_boundary_response("[{\"timestamp\":\"t\",\"result\":{\"maxTime\":\"b\"}}]"),
        Ok(vec![TimeBoundaryResponse {
            timestamp: "t".to_string(),
            result: MinMaxTime { max_time: Some("b".to_string()), min_time: None },
        }])
    );
    assert_eq!(
        time_boundary_response("[{\"timestamp\":\"t\",\"result\":{\"maxTime\":1}}]"),
        Err(failure(vec![PathStep::Index(0), key("result"), key("maxTime")], DecodeCause::TypeMismatch))
    );
}

#[test]
fn data_source_metadata_answers_hold_a_map() {
    let out = datasource_metadata_response("[{\"timestamp\":\"t\",\"result\":{\"maxIngestedEventTime\":\"x\"}}]").unwrap();
    assert_eq!(out.len(), 1);
    assert_eq!(out[0].timestamp, "t");
    assert_eq!(out[0].result.get("maxIngestedEventTime"), Some(&"x".to_string()));
}

const SEGMENT: &str = "[{\"id\":\"merged\",\"intervals\":null,\"columns\":{\
    \"__time\":{\"type\":\"LONG\",\"hasMultipleValues\":false,\"size\":0,\"cardinality\":null,\"minValue\":null,\"maxValue\":null,\"errorMessage\":null,\"typeSignature\":\"LONG\"},\
    \"page\":{\"type\":\"STRING\",\"hasMultipleValues\":true,\"size\":10,\"cardinality\":1.5,\"minValue\":\"A\",\"maxValue\":7}},\
    \"size\":100,\"numRows\":3,\"aggregators\":null,\
    \"timestampSpec\":{\"column\":\"time\",\"format\":\"iso\",\"missingValue\":null},\
    \"queryGranularity\":{\"type\":\"none\"},\"rollup\":false}]";

#[test]
fn segment_metadata_takes_null_for_empty_and_either_form_of_granularity() {
    let out = segment_metadata_response(SEGMENT).unwrap();
    assert_eq!(
        out,
        vec![SegmentMetadataResponse {
            id: "merged".to_string(),
            intervals: vec![],
            columns: vec![
                (
                    "__time".to_string(),
                    ColumnDefinition {
                        column_type: "LONG".to_string(),
                        has_multiple_values: false,
                        size: 0,
                        cardinality: None,
                        min_value: None,
                        max_value: None,
                        error_message: None,
                    }
                ),
                (
                    "page".to_string(),
                    ColumnDefinition {
                        column_type: "STRING".to_string(),
                        has_multiple_values: true,
                        size: 10,
                        cardinality: Some(JsonNumber::Decimal("1.5".to_string())),
                        min_value: Some(Json::Text("A".to_string())),
                        max_value: Some(Json::Number(JsonNumber::Unsigned(7))),
                        error_message: None,
                    }
                ),
            ],
            query_granularity: Granularity::Base(GranularityBase::Unbucketed),
            rollup: Some(false),
            size: Some(100),
            num_rows: Some(3),
            timestamp_spec: TimestampSpec { column: "time".to_string(), format: "iso".to_string(), missing_value: None },
            aggregators: vec![],
        }]
    );
}

#[test]
fn segment_metadata_reads_granularity_from_a_bare_string_too() {
    let text = "[{\"id\":\"s\",\"columns\":{},\"queryGranularity\":\"day\",\"timestampSpec\":{\"column\":\"c\",\"format\":\"f\"},\
                \"intervals\":[\"a/b\"],\"aggregators\":{\"n\":{\"type\":\"count\",\"name\":\"n\",\"fieldName\":\"f\"}}}]";
    let out = segment_metadata_response(text).unwrap();
    assert_eq!(out[0].query_granularity, Granularity::day());
    assert_eq!(out[0].intervals, vec!["a/b".to_string()]);
    assert_eq!(out[0].rollup, None);
    assert_eq!(out[0].size, None);
    assert_eq!(
        out[0].aggregators,
        vec![(
            "n".to_string(),
            AggregatorDefinition {
                aggr_type: "count".to_string(),
                name: "n".to_string(),
                field_name: "f".to_string(),
                expression: None,
            }
        )]
    );
    let structured = "[{\"id\":\"s\",\"columns\":{},\"queryGranularity\":{\"type\":\"period\",\"period\":\"P2D\",\"timeZone\":\"America/Los_Angeles\"},\"timestampSpec\":{\"column\":\"c\",\"format\":\"f\"}}]";
    assert_eq!(
        segment_metadata_response(structured).unwrap()[0].query_granularity,
        Granularity::period("P2D", "America/Los_Angeles")
    );
}

#[test]
fn segment_metadata_still_needs_what_is_required() {
    assert_eq!(
        segment_metadata_response("[{\"id\":\"s\",\"queryGranularity\":\"day\",\"timestampSpec\":{\"column\":\"c\",\"format\":\"f\"}}]"),
        Err(failure(vec![PathStep::Index(0), key("columns")], DecodeCause::MissingField))
    );
    assert_eq!(
        segment_metadata_response("[{\"id\":\"s\",\"columns\":null,\"queryGranularity\":\"day\",\"timestampSpec\":{\"column\":\"c\",\"format\":\"f\"}}]"),
        Err(failure(vec![PathStep::Index(0), key("columns")], DecodeCause::TypeMismatch))
    );
    assert_eq!(
        segment_metadata_response("[{\"id\":\"s\",\"columns\":{\"a\":{\"type\":\"LONG\",\"size\":1}},\"queryGranularity\":\"day\",\"timestampSpec\":{\"column\":\"c\",\"format\":\"f\"}}]"),
        Err(failure(vec![PathStep::Index(0), key("columns"), key("a"), key("hasMultipleValues")], DecodeCause::MissingField))
    );
    assert_eq!(
        segment_metadata_response("[{\"id\":\"s\",\"columns\":{},\"queryGranularity\":\"eon\",\"timestampSpec\":{\"column\":\"c\",\"format\":\"f\"}}]"),
        Err(failure(vec![PathStep::Index(0), key("queryGranularity")], DecodeCause::UnknownVariant))
    );
    assert_eq!(
        segment_metadata_response("[{\"id\":\"s\",\"columns\":{},\"queryGranularity\":\"day\",\"timestampSpec\":{\"column\":\"c\",\"format\":\"f\"},\"intervals\":5}]"),
        Err(failure(vec![PathStep::Index(0), key("intervals")], DecodeCause::TypeMismatch))
    );
}

#[test]
fn a_column_that_is_named_twice_keeps_its_first_place_and_its_last_definition() {
    let column = |size: u64| {
        Json::Object(vec![
            Member { name: "type".to_string(), value: Json::Text("LONG".to_string()) },
            Member { name: "hasMultipleValues".to_string(), value: Json::Bool(false) },
            Member { name: "size".to_string(), value: Json::Number(JsonNumber::Unsigned(size)) },
        ])
    };
    let columns = Json::Object(vec![
        Member { name: "a".to_string(), value: column(1) },
        Member { name: "b".to_string(), value: column(2) },
        Member { name: "a".to_string(), value: column(3) },
    ]);
    let read = ColumnDefinition::decode_named(&columns).unwrap();
    let sizes: Vec<(&str, usize)> = read.iter().map(|(name, c)| (name.as_str(), c.size)).collect();
    assert_eq!(sizes, vec![("a", 3), ("b", 2)]);
}

#[test]
fn fixed_records_are_written_as_they_are_read() {
    let out = segment_metadata_response(SEGMENT).unwrap();
    let text = out[0].encode().to_text().unwrap();
    assert_eq!(
        text,
        "{\"id\":\"merged\",\"intervals\":[],\"columns\":{\"__time\":{\"type\":\"LONG\",\"hasMultipleValues\":false,\"size\":0,\"cardinality\":null,\"minValue\":null,\"maxValue\":null,\"errorMessage\":null},\"page\":{\"type\":\"STRING\",\"hasMultipleValues\":true,\"size\":10,\"cardinality\":1.5,\"minValue\":\"A\",\"maxValue\":7,\"errorMessage\":null}},\"queryGranularity\":\"none\",\"rollup\":false,\"size\":100,\"numRows\":3,\"timestampSpec\":{\"column\":\"time\",\"format\":\"iso\",\"missingValue\":null},\"aggregators\":{}}"
    );
    assert_eq!(SegmentMetadataResponse::decode(&Json::from_text(&text).unwrap()).as_ref(), Ok(&out[0]));
}
