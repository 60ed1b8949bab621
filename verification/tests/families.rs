use druid_io::error::{DecodeCause, DecodeError, PathStep};
use druid_io::json::{Json, JsonNumber};
use druid_io::query::definitions::{
    Aggregation, Dimension, ExtractFN, Filter, Having, HllType, Limit, LookupMap, OrderByColumn,
    OutputType, PostAggregation, PostAggregator, SortDirection, SortingOrder, VirtualColumn,
};
use druid_io::string_map::StringMap;

fn key(name: &str) -> PathStep {
    PathStep::Key(name.to_string())
}

fn every_dimension() -> Vec<Dimension> {
    let mut map = StringMap::new();
    map.insert("a", "x");
    vec![
        Dimension::default("page"),
        Dimension::Default {
            dimension: "page".to_string(),
            output_name: "title".to_string(),
            output_type: OutputType::LONG,
        },
        Dimension::Extraction {
            dimension: "page".to_string(),
            output_name: "p".to_string(),
            output_type: OutputType::FLOAT,
            extraction_fn: ExtractFN::Strlen,
        },
        Dimension::ListFiltered {
            delegate: Box::new(Dimension::default("tags")),
            values: vec!["a".to_string()],
            is_whitelist: true,
        },
        Dimension::regex(Dimension::default("tags"), "^a"),
        Dimension::prefix(Dimension::regex(Dimension::default("tags"), "^a"), "ab"),
        Dimension::LookupMap {
            dimension: "c".to_string(),
            output_name: "country".to_string(),
            replace_missing_value_with: "?".to_string(),
            retain_missing_value: false,
            lookup: LookupMap { map, is_one_to_one: false },
        },
        Dimension::Lookup { dimension: "c".to_string(), output_name: "country".to_string(), name: "countries".to_string() },
    ]
}

fn every_aggregation() -> Vec<Aggregation> {
    vec![
        Aggregation::count("count"),
        Aggregation::long_sum("a", "b"),
        Aggregation::double_sum("a", "b"),
        Aggregation::float_sum("a", "b"),
        Aggregation::long_max("a", "b"),
        Aggregation::double_max("a", &"b"),
        Aggregation::float_max("a", "b"),
        Aggregation::long_min("a", "b"),
        Aggregation::float_min("a", "b"),
        Aggregation::double_min("a", "b"),
        Aggregation::long_first("a", "b"),
        Aggregation::float_first("a", "b"),
        Aggregation::double_first("a", "b"),
        Aggregation::long_last("a", "b"),
        Aggregation::float_last("a", "b"),
        Aggregation::double_last("a", "b"),
        Aggregation::string_first("user", "user", 1024),
        Aggregation::string_last("user", "user", 0),
        Aggregation::DoubleAny { name: "a".to_string(), field_name: "b".to_string() },
        Aggregation::FloatAny { name: "a".to_string(), field_name: "b".to_string() },
        Aggregation::LongAny { name: "a".to_string(), field_name: "b".to_string() },
        Aggregation::StringAny { name: "a".to_string(), field_name: "b".to_string() },
        Aggregation::Javascript {
            name: "js".to_string(),
            field_names: vec!["x".to_string(), "y".to_string()],
            fn_aggregate: "f".to_string(),
            fn_combine: "g".to_string(),
            fn_reset: "h".to_string(),
        },
        Aggregation::ThetaSketch {
            name: "t".to_string(),
            field_name: "u".to_string(),
            is_input_theta_sketch: false,
            size: 16384,
        },
        Aggregation::HLLSketchBuild {
            name: "h".to_string(),
            field_name: "u".to_string(),
            lg_k: 12,
            lgt_hll_type: HllType::HLL_4,
            round: true,
        },
        Aggregation::Cardinality { name: "c".to_string(), fields: vec!["u".to_string()], by_row: true, round: false },
        Aggregation::HyperUnique {
            name: "hu".to_string(),
            field_name: "u".to_string(),
            is_input_hyper_unique: true,
            round: true,
        },
        Aggregation::Filtered {
            filter: Filter::selector("user", "Taffe316"),
            aggregator: Box::new(Aggregation::Filtered {
                filter: Filter::True,
                aggregator: Box::new(Aggregation::count("n")),
            }),
        },
    ]
}

fn every_post_aggregation() -> Vec<PostAggregation> {
    vec![
        PostAggregation::arithmetic(
            "count_fraction",
            "/",
            vec![
                PostAggregator::field_access("count_percent", "count"),
                PostAggregator::constant("hundred", Json::Number(JsonNumber::Unsigned(100))),
                PostAggregator::finalized_field_access("f", "g"),
                PostAggregator::hyper_unique_cardinality("u"),
            ],
            None,
        ),
        PostAggregation::arithmetic("x", "+", vec![], Some("numericFirst".to_string())),
        PostAggregation::DoubleGreatest {
            name: "g".to_string(),
            fields: vec![PostAggregation::arithmetic("x", "+", vec![], None)],
        },
        PostAggregation::LongGreatest { name: "g".to_string(), fields: vec![] },
        PostAggregation::LongLeast {
            name: "g".to_string(),
            fields: vec![PostAggregation::DoubleLeast { name: "h".to_string(), fields: vec![] }],
        },
        PostAggregation::DoubleLeast { name: "g".to_string(), fields: vec![] },
        PostAggregation::Javascript {
            name: "js".to_string(),
            field_names: vec!["a".to_string()],
            function: "function(a) { return a }".to_string(),
        },
    ]
}

fn every_having() -> Vec<Having> {
    vec![
        Having::filter(Filter::selector("a", "b")),
        Having::greater_than("count", JsonNumber::Decimal("0.01".to_string())),
        Having::equal_to("count", JsonNumber::Unsigned(3)),
        Having::less_than("count", JsonNumber::Signed(-3)),
        Having::DimSelector { dimension: Dimension::default("page"), value: Json::Text("x".to_string()) },
        Having::And { having_specs: vec![Having::equal_to("a", JsonNumber::Unsigned(1)), Having::Or { having_specs: vec![] }] },
        Having::Or { having_specs: vec![Having::filter(Filter::True)] },
        Having::Not { having_specs: Box::new(Having::equal_to("a", JsonNumber::Unsigned(1))) },
    ]
}

#[test]
fn every_dimension_round_trips() {
    for d in every_dimension() {
        let text = d.encode().to_text().unwrap();
        assert_eq!(Dimension::decode(&Json::from_text(&text).unwrap()), Ok(d));
    }
    let items = Dimension::encode_list(&every_dimension());
    assert_eq!(Dimension::decode_list(&items), Ok(every_dimension()));
}

#[test]
fn every_aggregation_round_trips() {
    for a in every_aggregation() {
        let text = a.encode().to_text().unwrap();
        assert_eq!(Aggregation::decode(&Json::from_text(&text).unwrap()), Ok(a));
    }
    let items = Aggregation::encode_list(&every_aggregation());
    assert_eq!(Aggregation::decode_list(&items), Ok(every_aggregation()));
}

#[test]
fn every_post_aggregation_round_trips() {
    for p in every_post_aggregation() {
        let text = p.encode().to_text().unwrap();
        assert_eq!(PostAggregation::decode(&Json::from_text(&text).unwrap()), Ok(p));
    }
    let items = PostAggregation::encode_list(&every_post_aggregation());
    assert_eq!(PostAggregation::decode_list(&items), Ok(every_post_aggregation()));
}

#[test]
fn every_having_round_trips() {
    for h in every_having() {
        let text = h.encode().to_text().unwrap();
        assert_eq!(Having::decode(&Json::from_text(&text).unwrap()), Ok(h));
    }
}

#[test]
fn virtual_column_limit_and_order_round_trip() {
    let v = VirtualColumn::expression("foo_page", "concat('foo' + page)", OutputType::STRING);
    assert_eq!(
        v.encode().to_text().unwrap(),
        "{\"type\":\"expression\",\"name\":\"foo_page\",\"expression\":\"concat('foo' + page)\",\"outputType\":\"STRING\"}"
    );
    assert_eq!(VirtualColumn::decode(&v.encode()), Ok(v));
    let l = Limit {
        limit: 10,
        columns: vec![OrderByColumn::new("page", SortDirection::Descending, SortingOrder::Alphanumeric)],
    };
    assert_eq!(
        l.encode().to_text().unwrap(),
        "{\"type\":\"default\",\"limit\":10,\"columns\":[{\"dimension\":\"page\",\"direction\":\"descending\",\"dimensionOrder\":\"alphanumeric\"}]}"
    );
    assert_eq!(Limit::decode(&l.encode()), Ok(l));
}

#[test]
fn unit_shapes_are_written_as_their_names() {
    assert_eq!(OutputType::STRING.encode().to_text().unwrap(), "\"STRING\"");
    assert_eq!(OutputType::LONG.encode().to_text().unwrap(), "\"LONG\"");
    assert_eq!(OutputType::FLOAT.encode().to_text().unwrap(), "\"FLOAT\"");
    assert_eq!(HllType::HLL_4.encode().to_text().unwrap(), "\"HLL_4\"");
    assert_eq!(HllType::HLL_6.encode().to_text().unwrap(), "\"HLL_6\"");
    assert_eq!(HllType::HLL_8.encode().to_text().unwrap(), "\"HLL_8\"");
    assert_eq!(SortDirection::Ascending.encode().to_text().unwrap(), "\"ascending\"");
    assert_eq!(SortDirection::Descending.encode().to_text().unwrap(), "\"descending\"");
    assert_eq!(SortDirection::Unsorted.encode().to_text().unwrap(), "\"none\"");
    assert_eq!(SortingOrder::Lexicographic.encode().to_text().unwrap(), "\"lexicographic\"");
    assert_eq!(SortingOrder::Strlen.encode().to_text().unwrap(), "\"strlen\"");
    for t in [OutputType::STRING, OutputType::LONG, OutputType::FLOAT] {
        assert_eq!(OutputType::decode(&t.encode()), Ok(t));
    }
    for t in [HllType::HLL_4, HllType::HLL_6, HllType::HLL_8] {
        assert_eq!(HllType::decode(&t.encode()), Ok(t));
    }
    for t in [SortDirection::Ascending, SortDirection::Descending, SortDirection::Unsorted] {
        assert_eq!(SortDirection::decode(&t.encode()), Ok(t));
    }
    for t in [SortingOrder::Lexicographic, SortingOrder::Alphanumeric, SortingOrder::Strlen, SortingOrder::Numeric] {
        assert_eq!(SortingOrder::decode(&t.encode()), Ok(t));
    }
    assert_eq!(
        OutputType::decode(&Json::Text("string".to_string())),
        Err(DecodeError { path: vec![], cause: DecodeCause::UnknownVariant })
    );
    assert_eq!(
        OutputType::decode(&Json::Bool(true)),
        Err(DecodeError { path: vec![], cause: DecodeCause::TypeMismatch })
    );
}

#[test]
fn aggregations_are_written_in_camel_case() {
    assert_eq!(Aggregation::count("count").encode().to_text().unwrap(), "{\"type\":\"count\",\"name\":\"count\"}");
    assert_eq!(
        Aggregation::string_first("user", "user", 1024).encode().to_text().unwrap(),
        "{\"type\":\"stringFirst\",\"name\":\"user\",\"fieldName\":\"user\",\"maxStringBytes\":1024}"
    );
    assert_eq!(
        Aggregation::double_max("m", &"f").encode().to_text().unwrap(),
        "{\"type\":\"doubleMax\",\"name\":\"m\",\"fieldName\":\"f\"}"
    );
    assert_eq!(
        Aggregation::Filtered { filter: Filter::True, aggregator: Box::new(Aggregation::count("n")) }
            .encode()
            .to_text()
            .unwrap(),
        "{\"type\":\"filtered\",\"filter\":{\"type\":\"true\"},\"aggregator\":{\"type\":\"count\",\"name\":\"n\"}}"
    );
}

#[test]
fn post_aggregations_are_written_with_fn() {
    let p = PostAggregation::arithmetic(
        "count_fraction",
        "/",
        vec![
            PostAggregator::field_access("count_percent", "count"),
            PostAggregator::constant("hundred", Json::Number(JsonNumber::Unsigned(100))),
        ],
        None,
    );
    assert_eq!(
        p.encode().to_text().unwrap(),
        "{\"type\":\"arithmetic\",\"name\":\"count_fraction\",\"fn\":\"/\",\"fields\":[{\"type\":\"fieldAccess\",\"name\":\"count_percent\",\"fieldName\":\"count\"},{\"type\":\"constant\",\"name\":\"hundred\",\"value\":100}]}"
    );
}

#[test]
fn having_is_written_with_its_number_as_it_is() {
    assert_eq!(
        Having::greater_than("count_fraction", JsonNumber::Decimal("0.01".to_string())).encode().to_text().unwrap(),
        "{\"type\":\"greaterThan\",\"aggregation\":\"count_fraction\",\"value\":0.01}"
    );
}

#[test]
fn dimensions_are_written_in_camel_case() {
    assert_eq!(
        Dimension::default("page").encode().to_text().unwrap(),
        "{\"type\":\"default\",\"dimension\":\"page\",\"outputName\":\"page\",\"outputType\":\"STRING\"}"
    );
    assert_eq!(
        Dimension::prefix(Dimension::default("t"), "ab").encode().to_text().unwrap(),
        "{\"type\":\"prefixFiltered\",\"delegate\":{\"type\":\"default\",\"dimension\":\"t\",\"outputName\":\"t\",\"outputType\":\"STRING\"},\"prefix\":\"ab\"}"
    );
}

#[test]
fn unknown_discriminators_are_refused_in_every_family() {
    let j = Json::from_text("{\"type\":\"nope\",\"name\":\"a\",\"fieldName\":\"b\"}").unwrap();
    assert_eq!(Dimension::decode(&j), Err(unknown_type()));
    assert_eq!(Aggregation::decode(&j), Err(unknown_type()));
    assert_eq!(PostAggregation::decode(&j), Err(unknown_type()));
    assert_eq!(PostAggregator::decode(&j), Err(unknown_type()));
    assert_eq!(Having::decode(&j), Err(unknown_type()));
    assert_eq!(VirtualColumn::decode(&j), Err(unknown_type()));
    assert_eq!(Limit::decode(&j), Err(unknown_type()));
    assert_eq!(LookupMap::decode(&j), Err(unknown_type()));
}

fn unknown_type() -> DecodeError {
    DecodeError { path: vec![key("type")], cause: DecodeCause::UnknownVariant }
}

fn bad_count() -> DecodeError {
    DecodeError { path: vec![key("maxStringBytes")], cause: DecodeCause::TypeMismatch }
}

#[test]
fn a_count_has_to_be_a_whole_number_from_zero() {
    let read = |text: &str| Aggregation::decode(&Json::from_text(text).unwrap());
    assert_eq!(
        read("{\"type\":\"stringFirst\",\"name\":\"a\",\"fieldName\":\"b\",\"maxStringBytes\":-1}"),
        Err(bad_count())
    );
    assert_eq!(
        read("{\"type\":\"stringFirst\",\"name\":\"a\",\"fieldName\":\"b\",\"maxStringBytes\":1.5}"),
        Err(bad_count())
    );
    assert_eq!(
        read("{\"type\":\"stringFirst\",\"name\":\"a\",\"fieldName\":\"b\",\"maxStringBytes\":\"1\"}"),
        Err(bad_count())
    );
    assert_eq!(
        read("{\"type\":\"stringFirst\",\"name\":\"a\",\"fieldName\":\"b\",\"maxStringBytes\":0}"),
        Ok(Aggregation::string_first("a", "b", 0))
    );
}
