use druid_io::client::endpoint_url;
use druid_io::json::{Json, JsonNumber};
use druid_io::query::definitions::{
    Aggregation, Dimension, Filter, Granularity, Having, Interval, Limit, OrderByColumn,
    OutputType, PostAggregation, PostAggregator, SortDirection, SortingOrder, Timestamp,
    VirtualColumn,
};
use druid_io::query::group_by::{GroupBy, GroupByBuilder};
use druid_io::query::scan::{ResultFormat, Scan};
use druid_io::query::search::{Search, SearchQuerySpec};
use druid_io::query::segment_metadata::{AnalysisType, SegmentMetadata, ToInclude};
use druid_io::query::time_boundary::{TimeBoundType, TimeBoundary};
use druid_io::query::timeseries::Timeseries;
use druid_io::query::top_n::TopN;
use druid_io::query::{DataSource, DataSourceMetadata, JoinType, Query};
use druid_io::string_map::StringMap;

const INTERVAL: &str = "\"2015-09-12T08:23:32.096/2015-09-12T15:36:27.096\"";
const WIKIPEDIA: &str = "{\"type\":\"table\",\"name\":\"wikipedia\"}";
const COUNT: &str = "{\"type\":\"count\",\"name\":\"count\"}";
const USER_FIRST: &str =
    "{\"type\":\"stringFirst\",\"name\":\"user\",\"fieldName\":\"user\",\"maxStringBytes\":1024}";
const FOO_PAGE: &str = "{\"type\":\"expression\",\"name\":\"foo_page\",\"expression\":\"concat('foo' + page)\",\"outputType\":\"STRING\"}";

fn interval() -> Interval {
    Interval {
        from: Timestamp::from_ymd_hms_milli(2015, 9, 12, 8, 23, 32, 96).unwrap(),
        to: Timestamp::from_ymd_hms_milli(2015, 9, 12, 15, 36, 27, 96).unwrap(),
    }
}

#[test]
fn test_top_n_query() {
    let mut context = StringMap::new();
    context.insert("resultAsArray", "true");
    let top_n = TopN {
        data_source: DataSource::table("wikipedia"),
        dimension: Dimension::default("page"),
        threshold: 10,
        metric: "count".into(),
        aggregations: vec![
            Aggregation::count("count"),
            Aggregation::string_first("user", "user", 1024),
            Aggregation::string_first("foo_page", "foo_page", 1024),
        ],
        virtual_columns: vec![VirtualColumn::expression(
            "foo_page",
            "concat('foo' + page)",
            OutputType::STRING,
        )],
        intervals: vec![interval()],
        granularity: Granularity::all(),
        context: context,
    };
    let expected = format!(
        "{{\"queryType\":\"topN\",\"dataSource\":{WIKIPEDIA},\"dimension\":{{\"type\":\"default\",\"dimension\":\"page\",\"outputName\":\"page\",\"outputType\":\"STRING\"}},\"threshold\":10,\"metric\":\"count\",\"aggregations\":[{COUNT},{USER_FIRST},{{\"type\":\"stringFirst\",\"name\":\"foo_page\",\"fieldName\":\"foo_page\",\"maxStringBytes\":1024}}],\"virtualColumns\":[{FOO_PAGE}],\"intervals\":[{INTERVAL}],\"granularity\":\"all\",\"context\":{{\"resultAsArray\":\"true\"}}}}"
    );
    assert_eq!(top_n.encode().to_text().unwrap(), expected);
    assert_eq!(TopN::decode(&top_n.encode()), Ok(top_n));
}

fn inner_scan() -> Scan {
    Scan {
        data_source: DataSource::table("countries"),
        batch_size: 10,
        intervals: vec![interval()],
        result_format: ResultFormat::List,
        columns: vec!["Name".into(), "languages".into()],
        virtual_columns: vec![],
        limit: None,
        filter: None,
        order: SortDirection::Unsorted,
        context: StringMap::new(),
    }
}

#[test]
fn druid_test_scan_join() {
    let scan = Scan {
        data_source: DataSource::join(JoinType::Inner)
            .left(DataSource::table("wikipedia"))
            .right(DataSource::query(Query::Scan(inner_scan())), "c.")
            .condition("countryName == \"c.Name\"")
            .build()
            .unwrap(),
        batch_size: 10,
        intervals: vec![interval()],
        result_format: ResultFormat::List,
        columns: vec![],
        virtual_columns: vec![VirtualColumn::expression(
            "foo_page",
            "concat('foo' + page)",
            OutputType::STRING,
        )],
        limit: Some(10),
        filter: None,
        order: SortDirection::Unsorted,
        context: StringMap::new(),
    };
    let inner = format!(
        "{{\"queryType\":\"scan\",\"dataSource\":{{\"type\":\"table\",\"name\":\"countries\"}},\"intervals\":[{INTERVAL}],\"resultFormat\":\"list\",\"filter\":null,\"columns\":[\"Name\",\"languages\"],\"virtualColumns\":[],\"batchSize\":10,\"limit\":null,\"order\":\"none\",\"context\":{{}}}}"
    );
    let expected = format!(
        "{{\"queryType\":\"scan\",\"dataSource\":{{\"type\":\"join\",\"left\":{WIKIPEDIA},\"right\":{{\"type\":\"query\",\"query\":{inner}}},\"rightPrefix\":\"c.\",\"condition\":\"countryName == \\\"c.Name\\\"\",\"joinType\":\"INNER\"}},\"intervals\":[{INTERVAL}],\"resultFormat\":\"list\",\"filter\":null,\"columns\":[],\"virtualColumns\":[{FOO_PAGE}],\"batchSize\":10,\"limit\":10,\"order\":\"none\",\"context\":{{}}}}"
    );
    assert_eq!(scan.encode().to_text().unwrap(), expected);
    assert_eq!(Scan::decode(&Json::from_text(&expected).unwrap()), Ok(scan));
}

fn group_by() -> GroupBy {
    GroupBy {
        data_source: DataSource::table("wikipedia"),
        dimensions: vec![
            Dimension::Default {
                dimension: "page".into(),
                output_name: "page".into(),
                output_type: OutputType::STRING,
            },
            Dimension::Default {
                dimension: "foo_page".into(),
                output_name: "foo_page".into(),
                output_type: OutputType::STRING,
            },
        ],
        limit_spec: Some(Limit {
            limit: 10,
            columns: vec![OrderByColumn::new(
                "page",
                SortDirection::Descending,
                SortingOrder::Alphanumeric,
            )],
        }),
        granularity: Granularity::all(),
        filter: Some(Filter::selector("user", "Taffe316")),
        aggregations: vec![
            Aggregation::count("count"),
            Aggregation::string_first("user", "user", 1024),
        ],
        post_aggregations: vec![PostAggregation::arithmetic(
            "count_fraction",
            "/",
            vec![
                PostAggregator::field_access("count_percent", "count"),
                PostAggregator::constant("hundred", Json::Number(JsonNumber::Unsigned(100))),
            ],
            None,
        )],
        virtual_columns: vec![VirtualColumn::expression(
            "foo_page",
            "concat('foo' + page)",
            OutputType::STRING,
        )],
        having: Some(Having::greater_than("count_fraction", JsonNumber::Decimal("0.01".to_string()))),
        intervals: vec![interval()],
        subtotal_spec: Default::default(),
        context: Default::default(),
    }
}

#[test]
fn test_group_by() {
    let group_by = group_by();
    let expected = format!(
        "{{\"queryType\":\"groupBy\",\"dataSource\":{WIKIPEDIA},\"dimensions\":[{{\"type\":\"default\",\"dimension\":\"page\",\"outputName\":\"page\",\"outputType\":\"STRING\"}},{{\"type\":\"default\",\"dimension\":\"foo_page\",\"outputName\":\"foo_page\",\"outputType\":\"STRING\"}}],\"limitSpec\":{{\"type\":\"default\",\"limit\":10,\"columns\":[{{\"dimension\":\"page\",\"direction\":\"descending\",\"dimensionOrder\":\"alphanumeric\"}}]}},\"having\":{{\"type\":\"greaterThan\",\"aggregation\":\"count_fraction\",\"value\":0.01}},\"granularity\":\"all\",\"filter\":{{\"type\":\"selector\",\"dimension\":\"user\",\"value\":\"Taffe316\"}},\"aggregations\":[{COUNT},{USER_FIRST}],\"postAggregations\":[{{\"type\":\"arithmetic\",\"name\":\"count_fraction\",\"fn\":\"/\",\"fields\":[{{\"type\":\"fieldAccess\",\"name\":\"count_percent\",\"fieldName\":\"count\"}},{{\"type\":\"constant\",\"name\":\"hundred\",\"value\":100}}]}}],\"virtualColumns\":[{FOO_PAGE}],\"intervals\":[{INTERVAL}],\"subtotalSpec\":[],\"context\":{{}}}}"
    );
    assert_eq!(group_by.encode().to_text().unwrap(), expected);
    assert_eq!(GroupBy::decode(&Json::from_text(&expected).unwrap()), Ok(group_by));
}

#[test]
fn group_by_scenario_is_written_as_the_engine_expects() {
    let query = GroupByBuilder::new(DataSource::table("wikipedia"))
        .filter(Filter::selector("user", "Taffe316"))
        .aggregations(vec![Aggregation::count("count")])
        .granularity(Granularity::all())
        .intervals(vec![interval()])
        .build();
    let text = Query::GroupBy(query).to_text().unwrap();
    assert!(text.contains("\"queryType\":\"groupBy\""));
    assert!(text.contains("\"filter\":{\"type\":\"selector\",\"dimension\":\"user\",\"value\":\"Taffe316\"}"));
    assert!(text.contains("\"2015-09-12T08:23:32.096/2015-09-12T15:36:27.096\""));
    assert!(text.contains("\"granularity\":\"all\""));
    assert!(text.contains("\"aggregations\":[{\"type\":\"count\",\"name\":\"count\"}]"));
    assert!(text.contains("\"intervals\":[\"2015-09-12T08:23:32.096/2015-09-12T15:36:27.096\"]"));
}

#[test]
fn test_timeseries() {
    let mut context = StringMap::new();
    context.insert("grandTotal", "true");

    let timeseries = Timeseries {
        data_source: DataSource::table("wikipedia"),
        limit: Some(10),
        descending: false,
        granularity: Granularity::all(),
        filter: None, //Some(Filter::selector("user", "Taffe316")),
        aggregations: vec![
            Aggregation::count("count"),
            Aggregation::string_first("user", "user", 1024),
            Aggregation::string_first("foo_user", "foo_user", 1024),
        ],
        post_aggregations: vec![PostAggregation::arithmetic(
            "count_ololo",
            "/",
            vec![
                PostAggregator::field_access("count_percent", "count"),
                PostAggregator::constant("hundred", Json::Number(JsonNumber::Unsigned(100))),
            ],
            None,
        )],
        virtual_columns: vec![VirtualColumn::expression(
            "foo_user",
            "concat('foo' + user)",
            OutputType::STRING,
        )],
        intervals: vec![interval()],
        context: context,
    };
    let expected = format!(
        "{{\"queryType\":\"timeseries\",\"dataSource\":{WIKIPEDIA},\"granularity\":\"all\",\"descending\":false,\"intervals\":[{INTERVAL}],\"filter\":null,\"aggregations\":[{COUNT},{USER_FIRST},{{\"type\":\"stringFirst\",\"name\":\"foo_user\",\"fieldName\":\"foo_user\",\"maxStringBytes\":1024}}],\"postAggregations\":[{{\"type\":\"arithmetic\",\"name\":\"count_ololo\",\"fn\":\"/\",\"fields\":[{{\"type\":\"fieldAccess\",\"name\":\"count_percent\",\"fieldName\":\"count\"}},{{\"type\":\"constant\",\"name\":\"hundred\",\"value\":100}}]}}],\"virtualColumns\":[{{\"type\":\"expression\",\"name\":\"foo_user\",\"expression\":\"concat('foo' + user)\",\"outputType\":\"STRING\"}}],\"limit\":10,\"context\":{{\"grandTotal\":\"true\"}}}}"
    );
    assert_eq!(timeseries.encode().to_text().unwrap(), expected);
    assert_eq!(Timeseries::decode(&timeseries.encode()), Ok(timeseries));
}

#[test]
fn test_group_by_builder() {
    let group_by = GroupByBuilder::new(DataSource::table("wikipedia"))
        .dimensions(vec![
            Dimension::Default {
                dimension: "page".into(),
                output_name: "title".into(),
                output_type: OutputType::STRING,
            },
            Dimension::Default {
                dimension: "foo_page".into(),
                output_name: "foo_page".into(),
                output_type: OutputType::STRING,
            },
        ])
        .limit(Limit {
            limit: 10,
            columns: vec![OrderByColumn::new(
                "title",
                SortDirection::Descending,
                SortingOrder::Alphanumeric,
            )],
        })
        .having(Having::greater_than("count_ololo", JsonNumber::Decimal("0.001".to_string())))
        .filter(Filter::selector("user", "Taffe316"))
        .aggregations(vec![
            Aggregation::count("count"),
            Aggregation::string_first("user", "user", 1024),
        ])
        .post_aggregations(vec![PostAggregation::arithmetic(
            "count_ololo",
            "/",
            vec![
                PostAggregator::field_access("count_percent", "count"),
                PostAggregator::constant("hundred", Json::Number(JsonNumber::Unsigned(100))),
            ],
            None,
        )])
        .virtual_columns(vec![VirtualColumn::expression(
            "foo_page",
            "concat('foo' + page)",
            OutputType::STRING,
        )])
        .intervals(vec![interval()])
        .add_context("groupByStrategy", "v2")
        // .add_context("resultAsArray", "true")
        .build();
    let mut context = StringMap::new();
    context.insert("groupByStrategy", "v2");
    let direct = GroupBy {
        data_source: DataSource::table("wikipedia"),
        dimensions: vec![
            Dimension::Default {
                dimension: "page".into(),
                output_name: "title".into(),
                output_type: OutputType::STRING,
            },
            Dimension::default("foo_page"),
        ],
        limit_spec: Some(Limit {
            limit: 10,
            columns: vec![OrderByColumn::new("title", SortDirection::Descending, SortingOrder::Alphanumeric)],
        }),
        having: Some(Having::greater_than("count_ololo", JsonNumber::Decimal("0.001".to_string()))),
        granularity: Granularity::all(),
        filter: Some(Filter::selector("user", "Taffe316")),
        aggregations: vec![Aggregation::count("count"), Aggregation::string_first("user", "user", 1024)],
        post_aggregations: vec![PostAggregation::arithmetic(
            "count_ololo",
            "/",
            vec![
                PostAggregator::field_access("count_percent", "count"),
                PostAggregator::constant("hundred", Json::Number(JsonNumber::Unsigned(100))),
            ],
            None,
        )],
        virtual_columns: vec![VirtualColumn::expression("foo_page", "concat('foo' + page)", OutputType::STRING)],
        intervals: vec![interval()],
        subtotal_spec: vec![],
        context,
    };
    assert_eq!(group_by, direct);
    assert!(group_by.encode().to_text().unwrap().ends_with("\"subtotalSpec\":[],\"context\":{\"groupByStrategy\":\"v2\"}}"));
}

#[test]
fn group_by_builder_starts_from_its_defaults() {
    let built = GroupByBuilder::new(DataSource::table("t")).build();
    assert_eq!(
        built.encode().to_text().unwrap(),
        "{\"queryType\":\"groupBy\",\"dataSource\":{\"type\":\"table\",\"name\":\"t\"},\"dimensions\":[],\"limitSpec\":null,\"having\":null,\"granularity\":\"all\",\"filter\":null,\"aggregations\":[],\"postAggregations\":[],\"virtualColumns\":[],\"intervals\":[],\"subtotalSpec\":[],\"context\":{}}"
    );
    let mut context = StringMap::new();
    context.insert("a", "1");
    let other = GroupByBuilder::new(DataSource::table("t"))
        .granularity(Granularity::hour())
        .subtotal_spec(vec![vec!["a".to_string()], vec![]])
        .context(context)
        .add_context("a", "2")
        .add_context("b", "3")
        .build();
    assert!(other.encode().to_text().unwrap().ends_with(
        "\"subtotalSpec\":[[\"a\"],[]],\"context\":{\"a\":\"2\",\"b\":\"3\"}}"
    ));
    assert_eq!(GroupBy::decode(&other.encode()), Ok(other));
}

#[test]
fn test_search() {
    let search = Search {
        data_source: DataSource::table("wikipedia"),
        search_dimensions: vec!["page".into(), "user".into()],
        query: SearchQuerySpec::contains_insensitive("500"),
        sort: None,
        filter: None,
        limit: 20,
        intervals: vec![interval()],
        context: Default::default(),
        granularity: Granularity::all(),
    };
    let expected = format!(
        "{{\"queryType\":\"search\",\"dataSource\":{WIKIPEDIA},\"granularity\":\"all\",\"filter\":null,\"limit\":20,\"intervals\":[{INTERVAL}],\"searchDimensions\":[\"page\",\"user\"],\"query\":{{\"type\":\"insensitive_contains\",\"value\":\"500\"}},\"sort\":null,\"context\":{{}}}}"
    );
    assert_eq!(search.encode().to_text().unwrap(), expected);
    assert_eq!(Search::decode(&search.encode()), Ok(search));
}

#[test]
fn test_time_boundary() {
    let top_n = TimeBoundary {
        data_source: DataSource::table("wikipedia"),
        filter: None,
        context: Default::default(),
        bound: TimeBoundType::MinMaxTime,
    };
    let expected = format!(
        "{{\"queryType\":\"timeBoundary\",\"dataSource\":{WIKIPEDIA},\"filter\":null,\"context\":{{}}}}"
    );
    assert_eq!(top_n.encode().to_text().unwrap(), expected);
    assert_eq!(TimeBoundary::decode(&top_n.encode()), Ok(top_n));
}

#[test]
fn time_boundary_writes_a_bound_that_is_not_the_default() {
    for (bound, name) in [(TimeBoundType::MaxTime, "maxTime"), (TimeBoundType::MinTime, "minTime")] {
        let q = TimeBoundary {
            data_source: DataSource::table("wikipedia"),
            filter: Some(Filter::True),
            context: Default::default(),
            bound,
        };
        let expected = format!(
            "{{\"queryType\":\"timeBoundary\",\"dataSource\":{WIKIPEDIA},\"bound\":\"{name}\",\"filter\":{{\"type\":\"true\"}},\"context\":{{}}}}"
        );
        assert_eq!(q.encode().to_text().unwrap(), expected);
        assert_eq!(TimeBoundary::decode(&q.encode()), Ok(q));
    }
    assert!(TimeBoundType::MinMaxTime.is_both());
    assert!(!TimeBoundType::MaxTime.is_both());
    assert!(!TimeBoundType::MinTime.is_both());
    let explicit = Json::from_text(
        "{\"queryType\":\"timeBoundary\",\"dataSource\":{\"type\":\"table\",\"name\":\"w\"},\"bound\":\"minMaxTime\",\"context\":{}}",
    )
    .unwrap();
    assert_eq!(TimeBoundary::decode(&explicit).unwrap().bound, TimeBoundType::MinMaxTime);
}

#[test]
fn test_data_source_metadata() {
    let query = DataSourceMetadata { data_source: DataSource::table("wikipedia"), context: Default::default() };
    let expected =
        format!("{{\"queryType\":\"dataSourceMetadata\",\"dataSource\":{WIKIPEDIA},\"context\":{{}}}}");
    assert_eq!(query.encode().to_text().unwrap(), expected);
    assert_eq!(DataSourceMetadata::decode(&query.encode()), Ok(query));
}

fn segment_query() -> SegmentMetadata {
    SegmentMetadata {
        data_source: DataSource::table("countries"),
        intervals: vec![interval()],
        to_include: ToInclude::All,
        merge: false,
        analysis_types: vec![
            AnalysisType::Minmax,
            AnalysisType::Size,
            AnalysisType::Interval,
            AnalysisType::TimestampSpec,
            AnalysisType::QueryGranularity,
            AnalysisType::Aggregators,
            AnalysisType::Rollup,
            AnalysisType::Cardinality,
        ],
        lenient_aggregator_merge: false,
        context: Default::default(),
    }
}

#[test]
fn test_segment_metadata() {
    let segment_query = segment_query();
    let expected = format!(
        "{{\"queryType\":\"segmentMetadata\",\"dataSource\":{{\"type\":\"table\",\"name\":\"countries\"}},\"intervals\":[{INTERVAL}],\"toInclude\":{{\"type\":\"all\"}},\"merge\":false,\"analysisTypes\":[\"minmax\",\"size\",\"interval\",\"timestampSpec\",\"queryGranularity\",\"aggregators\",\"rollup\",\"cardinality\"],\"lenientAggregatorMerge\":false,\"context\":{{}}}}"
    );
    assert_eq!(segment_query.encode().to_text().unwrap(), expected);
    assert_eq!(SegmentMetadata::decode(&segment_query.encode()), Ok(segment_query));
}

#[test]
fn to_include_round_trips() {
    for t in [ToInclude::All, ToInclude::Nothing, ToInclude::List { columns: vec!["a".to_string()] }] {
        assert_eq!(ToInclude::decode(&t.encode()), Ok(t));
    }
    assert_eq!(ToInclude::Nothing.encode().to_text().unwrap(), "{\"type\":\"none\"}");
    assert_eq!(
        ToInclude::List { columns: vec!["a".to_string()] }.encode().to_text().unwrap(),
        "{\"type\":\"list\",\"columns\":[\"a\"]}"
    );
}

#[test]
fn test_client_builder() {
    let segment_query = segment_query();
    assert_eq!(endpoint_url("http://localhost:8082", "druid/v2"), "http://localhost:8082/druid/v2");
    let text = Query::SegmentMetadata(segment_query).to_text().unwrap();
    assert!(text.starts_with("{\"queryType\":\"segmentMetadata\""));
}

#[test]
fn any_query_round_trips_and_is_told_apart_by_its_query_type() {
    let queries = vec![
        Query::GroupBy(group_by()),
        Query::Scan(inner_scan()),
        Query::SegmentMetadata(segment_query()),
        Query::DataSourceMetadata(DataSourceMetadata {
            data_source: DataSource::union(vec!["a", "b"]),
            context: Default::default(),
        }),
        Query::TimeBoundary(TimeBoundary {
            data_source: DataSource::table("w"),
            filter: None,
            context: Default::default(),
            bound: TimeBoundType::MaxTime,
        }),
    ];
    for q in queries {
        let text = q.to_text().unwrap();
        assert_eq!(Query::decode(&Json::from_text(&text).unwrap()), Ok(q));
    }
}
