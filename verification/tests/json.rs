//! JSON values, and their text.

use leepanel::json::Json;
use leepanel::json_text::{compact_json, json_line, parse_json, pretty_json};

#[test]
fn text_is_read_as_a_value() {
    let value = parse_json("{\"a\": [1, -2, 1.5, null, true], \"b\": {\"c\": \"x\"}}").unwrap();
    assert_eq!(value.get2("b", "c").and_then(Json::as_str), Some("x"));
    match value.get("a") {
        Some(Json::Array(items)) => {
            assert_eq!(items.len(), 5);
            assert_eq!(items[0].as_u64(), Some(1));
            assert_eq!(items[1].as_u64(), None);
            assert_eq!(items[2].as_u64(), None);
            assert_eq!(items[3], Json::Null);
            assert_eq!(items[4].as_bool(), Some(true));
        }
        other => panic!("{:?}", other),
    }
}

#[test]
fn malformed_text_is_an_error() {
    assert_eq!(
        parse_json("{"),
        Err("EOF while parsing an object at line 1 column 1".to_string())
    );
    assert!(parse_json("").is_err());
    assert!(parse_json("1 2").is_err());
}

#[test]
fn values_are_printed() {
    let value = Json::object()
        .with("n", Json::Unsigned(1))
        .with("m", Json::Signed(-1))
        .with("list", Json::array().and(Json::text("a\"b")).and(Json::Null));
    assert_eq!(
        compact_json(&value),
        Ok("{\"list\":[\"a\\\"b\",null],\"m\":-1,\"n\":1}".to_string())
    );
    assert_eq!(
        pretty_json(&value),
        "{\n  \"list\": [\n    \"a\\\"b\",\n    null\n  ],\n  \"m\": -1,\n  \"n\": 1\n}"
    );
}

#[test]
fn values_are_sent_as_lines() {
    let value = Json::object().with("a", Json::text("x\ny"));
    assert_eq!(json_line(&value), Ok("{\"a\":\"x\\ny\"}\n".to_string()));
}

#[test]
fn a_later_entry_replaces_an_earlier_one() {
    let value = Json::object().with("a", Json::Unsigned(1)).with("a", Json::Unsigned(2));
    assert_eq!(value.get("a"), Some(&Json::Unsigned(2)));
    assert_eq!(compact_json(&value), Ok("{\"a\":2}".to_string()));
}

#[test]
fn printed_values_are_read_back() {
    let value = Json::object()
        .with("text", Json::text("你好\n"))
        .with("list", Json::array().and(Json::Bool(false)).and(Json::object()));
    let printed = compact_json(&value).unwrap();
    let read = parse_json(&printed).unwrap();
    assert_eq!(compact_json(&read), Ok(printed));
    assert_eq!(read.get_str("text"), Some("你好\n"));
}

#[test]
fn only_objects_have_entries() {
    assert_eq!(Json::array().get("a"), None);
    assert_eq!(Json::text("a").get("a"), None);
    assert_eq!(Json::Null.get_str("a"), None);
    assert_eq!(Json::Unsigned(7).as_str(), None);
    assert_eq!(Json::Signed(7).as_u64(), Some(7));
    assert_eq!(Json::object().clone(), Json::object());
}
