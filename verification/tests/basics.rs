use druid_io::client::endpoint_url;
use druid_io::error::{CodecError, DecodeCause, DecodeError, PathStep};
use druid_io::json::{str_eq, Json, JsonNumber, Member};
use druid_io::string_map::StringMap;

#[test]
fn it_works() {
    assert_eq!(2 + 2, 4);
}

fn object(members: Vec<(&str, Json)>) -> Json {
    Json::Object(
        members
            .into_iter()
            .map(|(name, value)| Member { name: name.to_string(), value })
            .collect(),
    )
}

#[test]
fn text_is_read_into_a_document() {
    let j = Json::from_text("{\"a\":[1,-2,true,null,\"x\"],\"b\":{\"c\":0.5}}").unwrap();
    let expected = object(vec![
        (
            "a",
            Json::Array(vec![
                Json::Number(JsonNumber::Unsigned(1)),
                Json::Number(JsonNumber::Signed(-2)),
                Json::Bool(true),
                Json::Null,
                Json::Text("x".to_string()),
            ]),
        ),
        ("b", object(vec![("c", Json::Number(JsonNumber::Decimal("0.5".to_string())))])),
    ]);
    assert_eq!(j, expected);
}

#[test]
fn members_keep_the_order_of_the_text() {
    let j = Json::from_text("{\"z\":1,\"a\":2,\"m\":3}").unwrap();
    match j {
        Json::Object(members) => {
            let names: Vec<&str> = members.iter().map(|m| m.name.as_str()).collect();
            assert_eq!(names, vec!["z", "a", "m"]);
        },
        _ => panic!("not an object"),
    }
}

#[test]
fn text_that_is_no_document_is_a_syntax_failure() {
    let e = Json::from_text("{\"a\":").unwrap_err();
    assert_eq!(e, DecodeError { path: vec![], cause: DecodeCause::Syntax });
    assert!(Json::from_text("").is_err());
    assert!(Json::from_text("nul").is_err());
}

#[test]
fn a_document_is_written_as_compact_text() {
    let j = object(vec![
        ("type", Json::Text("a \"b\"".to_string())),
        ("n", Json::Number(JsonNumber::Unsigned(18446744073709551615))),
        ("i", Json::Number(JsonNumber::Signed(-9223372036854775808))),
        ("d", Json::Number(JsonNumber::Decimal("0.01".to_string()))),
        ("list", Json::Array(vec![Json::Null, Json::Bool(false)])),
        ("empty", object(vec![])),
    ]);
    assert_eq!(
        j.to_text().unwrap(),
        "{\"type\":\"a \\\"b\\\"\",\"n\":18446744073709551615,\"i\":-9223372036854775808,\"d\":0.01,\"list\":[null,false],\"empty\":{}}"
    );
}

#[test]
fn writing_and_reading_a_document_gives_it_back() {
    let j = object(vec![
        ("a", Json::Array(vec![Json::Number(JsonNumber::Unsigned(7)), Json::Text("é/\n".to_string())])),
        ("b", object(vec![("c", Json::Null)])),
    ]);
    let text = j.to_text().unwrap();
    assert_eq!(Json::from_text(&text).unwrap(), j);
}

#[test]
fn a_decimal_that_is_no_number_cannot_be_written() {
    let j = Json::Array(vec![Json::Number(JsonNumber::Decimal("one".to_string()))]);
    assert_eq!(j.to_text(), Err(CodecError::EncodeFailure));
}

#[test]
fn a_decimal_is_written_as_the_number_it_is_read_as() {
    let j = Json::Number(JsonNumber::Decimal("1e2".to_string()));
    assert_eq!(j.to_text().unwrap(), "100.0");
    let k = Json::Number(JsonNumber::Decimal("5".to_string()));
    assert_eq!(k.to_text().unwrap(), "5");
}

#[test]
fn a_name_that_is_written_twice_keeps_its_place_and_takes_the_last_value() {
    let j = object(vec![
        ("a", Json::Number(JsonNumber::Unsigned(1))),
        ("b", Json::Number(JsonNumber::Unsigned(2))),
        ("a", Json::Number(JsonNumber::Unsigned(3))),
    ]);
    assert_eq!(j.to_text().unwrap(), "{\"a\":3,\"b\":2}");
}

#[test]
fn copy_gives_an_equal_document() {
    let j = object(vec![("a", Json::Array(vec![Json::Bool(true), object(vec![("b", Json::Null)])]))]);
    assert_eq!(j.copy(), j);
}

#[test]
fn strings_are_compared_by_their_characters() {
    assert!(str_eq("type", "type"));
    assert!(!str_eq("type", "typ"));
    assert!(!str_eq("type", "typf"));
    assert!(str_eq("", ""));
    assert!(str_eq("é", "é"));
    assert!(!str_eq("é", "e"));
}

#[test]
fn failures_carry_their_path_outermost_step_first() {
    let e = DecodeError::here(DecodeCause::TypeMismatch).within_index(2).within_key("fields");
    assert_eq!(
        e,
        DecodeError {
            path: vec![PathStep::Key("fields".to_string()), PathStep::Index(2)],
            cause: DecodeCause::TypeMismatch,
        }
    );
}

#[test]
fn endpoint_url_puts_one_slash_between_base_and_endpoint() {
    assert_eq!(endpoint_url("http://localhost:8082", "druid/v2"), "http://localhost:8082/druid/v2");
    assert_eq!(endpoint_url("http://localhost:8082/", "druid/v2"), "http://localhost:8082/druid/v2");
    assert_eq!(endpoint_url("", "druid/v2"), "/druid/v2");
    assert_eq!(endpoint_url("http://hôte", "x"), "http://hôte/x");
}

#[test]
fn string_map_keeps_insertion_order_and_replaces_in_place() {
    let mut map = StringMap::new();
    assert_eq!(map.len(), 0);
    map.insert("b", "1");
    map.insert("a", "2");
    map.insert("b", "3");
    assert_eq!(map.len(), 2);
    assert_eq!(map.get("b"), Some(&"3".to_string()));
    assert_eq!(map.get("a"), Some(&"2".to_string()));
    assert_eq!(map.get("c"), None);
    assert_eq!(map.encode().to_text().unwrap(), "{\"b\":\"3\",\"a\":\"2\"}");
}

#[test]
fn string_map_round_trip() {
    let mut map = StringMap::new();
    map.insert("groupByStrategy", "v2");
    map.insert("resultAsArray", "true");
    assert_eq!(StringMap::decode(&map.encode()), Ok(map));
}

#[test]
fn string_map_refuses_a_value_that_is_no_string() {
    let j = Json::from_text("{\"a\":\"x\",\"b\":5}").unwrap();
    assert_eq!(
        StringMap::decode(&j),
        Err(DecodeError { path: vec![PathStep::Key("b".to_string())], cause: DecodeCause::TypeMismatch })
    );
    assert_eq!(
        StringMap::decode(&Json::Null),
        Err(DecodeError { path: vec![], cause: DecodeCause::TypeMismatch })
    );
}

#[test]
fn a_key_that_is_read_twice_keeps_its_first_place_and_its_last_value() {
    let j = object(vec![
        ("a", Json::Text("1".to_string())),
        ("b", Json::Text("2".to_string())),
        ("a", Json::Text("3".to_string())),
    ]);
    let map = StringMap::decode(&j).unwrap();
    assert_eq!(map.len(), 2);
    assert_eq!(map.get("a"), Some(&"3".to_string()));
    assert_eq!(map.get("b"), Some(&"2".to_string()));
    assert_eq!(
        map.entries(),
        &vec![("a".to_string(), "3".to_string()), ("b".to_string(), "2".to_string())]
    );
    assert_eq!(map.encode().to_text().unwrap(), "{\"a\":\"3\",\"b\":\"2\"}");
}

#[test]
fn members_are_written_in_the_order_in_which_they_were_put() {
    let j = object(vec![
        ("z", Json::Null),
        ("a", Json::Null),
        ("m", Json::Null),
        ("b", Json::Null),
    ]);
    assert_eq!(j.to_text().unwrap(), "{\"z\":null,\"a\":null,\"m\":null,\"b\":null}");
}

#[test]
fn default_string_map_is_empty() {
    let map: StringMap = Default::default();
    assert_eq!(map.len(), 0);
    assert_eq!(map.encode().to_text().unwrap(), "{}");
}
