use druid_io::error::{CodecError, DecodeCause, DecodeError, PathStep};
use druid_io::json::Json;
use druid_io::query::definitions::{Interval, OutputType, SortDirection, Timestamp, VirtualColumn};
use druid_io::query::scan::{ResultFormat, Scan, ScanBuilder};
use druid_io::query::{DataSource, JoinType, Query};
use druid_io::string_map::StringMap;

fn interval() -> Interval {
    Interval {
        from: Timestamp::from_ymd_hms_milli(2015, 9, 12, 8, 23, 32, 96).unwrap(),
        to: Timestamp::from_ymd_hms_milli(2015, 9, 12, 15, 36, 27, 96).unwrap(),
    }
}

#[test]
fn scan_test_scan_join() {
    let scan = ScanBuilder::new(
        DataSource::join(JoinType::Inner)
            .left(DataSource::table("wikipedia"))
            .right(
                DataSource::query(Query::Scan(
                    ScanBuilder::new(DataSource::table("countries"))
                        .batch_size(10)
                        .intervals(vec![interval()])
                        .columns(vec!["Name".into(), "languages".into()])
                        .build(),
                )),
                "c.",
            )
            .condition("countryName == \"c.Name\"")
            .build()
            .unwrap(),
    )
    .batch_size(10)
    .intervals(vec![interval()])
    .result_format(ResultFormat::List)
    .virtual_columns(vec![VirtualColumn::expression(
        "foo_page",
        "concat('foo' + page)",
        OutputType::STRING,
    )])
    .limit(10)
    .build();

    let direct = Scan {
        data_source: DataSource::Join {
            left: Box::new(DataSource::table("wikipedia")),
            right: Box::new(DataSource::Query {
                query: Box::new(Query::Scan(Scan {
                    data_source: DataSource::table("countries"),
                    intervals: vec![interval()],
                    result_format: ResultFormat::List,
                    filter: None,
                    columns: vec!["Name".to_string(), "languages".to_string()],
                    virtual_columns: vec![],
                    batch_size: 10,
                    limit: None,
                    order: SortDirection::Unsorted,
                    context: StringMap::new(),
                })),
            }),
            right_prefix: "c.".to_string(),
            condition: "countryName == \"c.Name\"".to_string(),
            join_type: JoinType::Inner,
        },
        intervals: vec![interval()],
        result_format: ResultFormat::List,
        filter: None,
        columns: vec![],
        virtual_columns: vec![VirtualColumn::expression("foo_page", "concat('foo' + page)", OutputType::STRING)],
        batch_size: 10,
        limit: Some(10),
        order: SortDirection::Unsorted,
        context: StringMap::new(),
    };
    assert_eq!(scan, direct);
    assert_eq!(Scan::decode(&scan.encode()), Ok(direct));
}

#[test]
fn scan_builder_starts_from_its_defaults() {
    let scan = ScanBuilder::new(DataSource::table("t")).build();
    assert_eq!(scan.batch_size, 20480);
    assert_eq!(scan.result_format, ResultFormat::List);
    assert_eq!(scan.order, SortDirection::Unsorted);
    assert_eq!(scan.limit, None);
    assert_eq!(
        scan.encode().to_text().unwrap(),
        "{\"queryType\":\"scan\",\"dataSource\":{\"type\":\"table\",\"name\":\"t\"},\"intervals\":[],\"resultFormat\":\"list\",\"filter\":null,\"columns\":[],\"virtualColumns\":[],\"batchSize\":20480,\"limit\":null,\"order\":\"none\",\"context\":{}}"
    );
}

#[test]
fn scan_builder_sets_each_part() {
    let mut context = StringMap::new();
    context.insert("k", "v");
    let scan = ScanBuilder::new(DataSource::table("t"))
        .result_format(ResultFormat::CompactedList)
        .filter(druid_io::query::definitions::Filter::True)
        .order(SortDirection::Descending)
        .context(context)
        .add_context("timeout", "10")
        .build();
    assert_eq!(
        scan.encode().to_text().unwrap(),
        "{\"queryType\":\"scan\",\"dataSource\":{\"type\":\"table\",\"name\":\"t\"},\"intervals\":[],\"resultFormat\":\"compactedList\",\"filter\":{\"type\":\"true\"},\"columns\":[],\"virtualColumns\":[],\"batchSize\":20480,\"limit\":null,\"order\":\"descending\",\"context\":{\"k\":\"v\",\"timeout\":\"10\"}}"
    );
    assert_eq!(Scan::decode(&scan.encode()), Ok(scan));
    assert_eq!(ResultFormat::ValueVector.encode().to_text().unwrap(), "\"valueVector\"");
}

#[test]
fn join_is_incomplete_until_both_sides_and_the_condition_are_given() {
    let t = || DataSource::table("t");
    assert_eq!(DataSource::join(JoinType::Inner).build(), Err(CodecError::IncompleteJoin));
    assert_eq!(DataSource::join(JoinType::Inner).left(t()).build(), Err(CodecError::IncompleteJoin));
    assert_eq!(DataSource::join(JoinType::Inner).right(t(), "r.").build(), Err(CodecError::IncompleteJoin));
    assert_eq!(DataSource::join(JoinType::Inner).condition("a == b").build(), Err(CodecError::IncompleteJoin));
    assert_eq!(
        DataSource::join(JoinType::Inner).left(t()).right(t(), "r.").build(),
        Err(CodecError::IncompleteJoin)
    );
    assert_eq!(
        DataSource::join(JoinType::Inner).left(t()).condition("a == b").build(),
        Err(CodecError::IncompleteJoin)
    );
    assert_eq!(
        DataSource::join(JoinType::Inner).right(t(), "r.").condition("a == b").build(),
        Err(CodecError::IncompleteJoin)
    );
}

#[test]
fn a_complete_join_equals_the_join_written_directly() {
    let built = DataSource::join(JoinType::Left)
        .condition("a == \"r.b\"")
        .right(DataSource::table("r"), "r.")
        .left(DataSource::table("l"))
        .build();
    let direct = DataSource::Join {
        left: Box::new(DataSource::table("l")),
        right: Box::new(DataSource::table("r")),
        right_prefix: "r.".to_string(),
        condition: "a == \"r.b\"".to_string(),
        join_type: JoinType::Left,
    };
    assert_eq!(built, Ok(direct));
    assert_eq!(
        built.unwrap().encode().to_text().unwrap(),
        "{\"type\":\"join\",\"left\":{\"type\":\"table\",\"name\":\"l\"},\"right\":{\"type\":\"table\",\"name\":\"r\"},\"rightPrefix\":\"r.\",\"condition\":\"a == \\\"r.b\\\"\",\"joinType\":\"LEFT\"}"
    );
}

#[test]
fn the_last_value_that_a_slot_was_given_counts() {
    let built = DataSource::join(JoinType::Inner)
        .left(DataSource::table("x"))
        .left(DataSource::table("l"))
        .right(DataSource::table("y"), "y.")
        .right(DataSource::table("r"), "r.")
        .condition("1")
        .condition("2")
        .build()
        .unwrap();
    assert_eq!(
        built,
        DataSource::Join {
            left: Box::new(DataSource::table("l")),
            right: Box::new(DataSource::table("r")),
            right_prefix: "r.".to_string(),
            condition: "2".to_string(),
            join_type: JoinType::Inner,
        }
    );
}

#[test]
fn every_data_source_round_trips() {
    let sources = vec![
        DataSource::table("wikipedia"),
        DataSource::union(vec!["a", "b"]),
        DataSource::union(vec![]),
        DataSource::query(Query::Scan(ScanBuilder::new(DataSource::table("t")).intervals(vec![interval()]).build())),
        DataSource::join(JoinType::Inner)
            .left(DataSource::table("l"))
            .right(DataSource::union(vec!["a"]), "r.")
            .condition("x")
            .build()
            .unwrap(),
    ];
    for s in sources {
        let text = s.encode().to_text().unwrap();
        assert_eq!(DataSource::decode(&Json::from_text(&text).unwrap()), Ok(s));
    }
    assert_eq!(DataSource::table("wikipedia").encode().to_text().unwrap(), "{\"type\":\"table\",\"name\":\"wikipedia\"}");
    assert_eq!(
        DataSource::union(vec!["a", "b"]).encode().to_text().unwrap(),
        "{\"type\":\"union\",\"dataSources\":[\"a\",\"b\"]}"
    );
}

#[test]
fn data_sources_and_queries_of_unknown_kind_are_refused() {
    let key = |k: &str| PathStep::Key(k.to_string());
    assert_eq!(
        DataSource::decode(&Json::from_text("{\"type\":\"lookup\",\"name\":\"x\"}").unwrap()),
        Err(DecodeError { path: vec![key("type")], cause: DecodeCause::UnknownVariant })
    );
    assert_eq!(
        Query::decode(&Json::from_text("{\"queryType\":\"sql\"}").unwrap()),
        Err(DecodeError { path: vec![key("queryType")], cause: DecodeCause::UnknownVariant })
    );
    assert_eq!(
        Scan::decode(&Json::from_text("{\"queryType\":\"topN\"}").unwrap()),
        Err(DecodeError { path: vec![key("queryType")], cause: DecodeCause::UnknownVariant })
    );
    assert_eq!(
        DataSource::decode(
            &Json::from_text("{\"type\":\"query\",\"query\":{\"queryType\":\"scan\",\"dataSource\":{\"type\":\"table\"}}}")
                .unwrap()
        ),
        Err(DecodeError { path: vec![key("query"), key("dataSource"), key("name")], cause: DecodeCause::MissingField })
    );
    assert_eq!(
        DataSource::decode(&Json::from_text("{\"type\":\"join\",\"left\":{\"type\":\"table\",\"name\":\"l\"},\"right\":{\"type\":\"table\",\"name\":\"r\"},\"rightPrefix\":\"r.\",\"condition\":\"c\",\"joinType\":\"OUTER\"}").unwrap()),
        Err(DecodeError { path: vec![key("joinType")], cause: DecodeCause::UnknownVariant })
    );
}

#[test]
fn a_query_with_a_malformed_interval_is_refused() {
    let j = Json::from_text(
        "{\"queryType\":\"scan\",\"dataSource\":{\"type\":\"table\",\"name\":\"t\"},\"intervals\":[\"2015-09-12T08:23:32.096\"],\"resultFormat\":\"list\",\"columns\":[],\"virtualColumns\":[],\"batchSize\":1,\"order\":\"none\",\"context\":{}}",
    )
    .unwrap();
    assert_eq!(
        Scan::decode(&j),
        Err(DecodeError {
            path: vec![PathStep::Key("intervals".to_string()), PathStep::Index(0)],
            cause: DecodeCause::MalformedInterval,
        })
    );
}
