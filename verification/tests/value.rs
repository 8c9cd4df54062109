use json_editor::numbers::decimal_text;
use json_editor::value::{JsonError, JsonValue};

fn number(text: &str) -> JsonValue {
    JsonValue::Number(text.to_string())
}

fn string(text: &str) -> JsonValue {
    JsonValue::String(text.to_string())
}

fn member(name: &str, value: JsonValue) -> (String, JsonValue) {
    (name.to_string(), value)
}

#[test]
fn parse_keeps_order_and_numbers() {
    let value = JsonValue::parse(r#"{"b": 1, "a": [true, null, "s", 1.5, -3, false]}"#).unwrap();
    assert_eq!(
        value,
        JsonValue::Object(vec![
            member("b", number("1")),
            member(
                "a",
                JsonValue::Array(vec![
                    JsonValue::Bool(true),
                    JsonValue::Null,
                    string("s"),
                    number("1.5"),
                    number("-3"),
                    JsonValue::Bool(false),
                ])
            ),
        ])
    );
}

#[test]
fn parse_refuses_what_is_not_json() {
    assert_eq!(JsonValue::parse("{"), Err(JsonError::Malformed));
    assert_eq!(JsonValue::parse(""), Err(JsonError::Malformed));
    assert_eq!(JsonValue::parse("[1, 2,]"), Err(JsonError::Malformed));
    assert_eq!(JsonValue::parse("nul"), Err(JsonError::Malformed));
    assert_eq!(JsonValue::parse("1 2"), Err(JsonError::Malformed));
}

#[test]
fn parse_takes_scalars() {
    assert_eq!(JsonValue::parse("null"), Ok(JsonValue::Null));
    assert_eq!(JsonValue::parse(" true "), Ok(JsonValue::Bool(true)));
    assert_eq!(JsonValue::parse("12"), Ok(number("12")));
    assert_eq!(JsonValue::parse("\"a\\nb\""), Ok(string("a\nb")));
    assert_eq!(JsonValue::parse("[]"), Ok(JsonValue::Array(vec![])));
    assert_eq!(JsonValue::parse("{}"), Ok(JsonValue::Object(vec![])));
}

#[test]
fn pretty_text_indents_by_four_spaces() {
    let value = JsonValue::Object(vec![
        member("a", number("1")),
        member("list", JsonValue::Array(vec![number("10"), string("x")])),
        member("none", JsonValue::Null),
        member("empty", JsonValue::Object(vec![])),
    ]);
    assert_eq!(
        String::from_utf8(value.to_pretty_bytes().unwrap()).unwrap(),
        "{\n    \"a\": 1,\n    \"list\": [\n        10,\n        \"x\"\n    ],\n    \"none\": null,\n    \"empty\": {}\n}"
    );
    assert_eq!(JsonValue::Null.to_pretty_bytes(), Ok(b"null".to_vec()));
    assert_eq!(JsonValue::Array(vec![]).to_pretty_bytes(), Ok(b"[]".to_vec()));
}

#[test]
fn pretty_text_escapes_line_breaks() {
    let value = JsonValue::Array(vec![string("a\nb\"c")]);
    assert_eq!(
        value.to_pretty_bytes(),
        Ok(b"[\n    \"a\\nb\\\"c\"\n]".to_vec())
    );
}

#[test]
fn compact_text_has_no_spaces() {
    let value = JsonValue::parse(r#"{"b": 1, "a": [true, null, "s", 1.5, -3]}"#).unwrap();
    assert_eq!(
        value.to_compact_string(),
        Ok(r#"{"b":1,"a":[true,null,"s",1.5,-3]}"#.to_string())
    );
    assert_eq!(JsonValue::Null.to_compact_string(), Ok("null".to_string()));
}

#[test]
fn number_is_written_as_serde_json_reads_it() {
    assert_eq!(number("1e2").to_compact_string(), Ok("100.0".to_string()));
    assert_eq!(number("18446744073709551615").to_compact_string(), Ok("18446744073709551615".to_string()));
    assert_eq!(number("-0.5").to_pretty_bytes(), Ok(b"-0.5".to_vec()));
}

#[test]
fn number_that_is_none_has_no_text() {
    assert_eq!(number("abc").to_compact_string(), Err(JsonError::NotSerializable));
    assert_eq!(number("").to_pretty_bytes(), Err(JsonError::NotSerializable));
    assert_eq!(number("1 ").to_pretty_bytes(), Err(JsonError::NotSerializable));
    let nested = JsonValue::Object(vec![member(
        "a",
        JsonValue::Array(vec![number("1"), number("x")]),
    )]);
    assert_eq!(nested.to_pretty_bytes(), Err(JsonError::NotSerializable));
    assert_eq!(nested.to_compact_string(), Err(JsonError::NotSerializable));
}

#[test]
fn later_member_of_the_same_name_wins() {
    let value = JsonValue::Object(vec![
        member("a", number("1")),
        member("b", number("2")),
        member("a", number("3")),
    ]);
    assert_eq!(value.to_compact_string(), Ok(r#"{"a":3,"b":2}"#.to_string()));
}

#[test]
fn array_len_is_for_arrays() {
    assert_eq!(JsonValue::Array(vec![JsonValue::Null, JsonValue::Null]).array_len(), Some(2));
    assert_eq!(JsonValue::Array(vec![]).array_len(), Some(0));
    assert_eq!(JsonValue::Object(vec![]).array_len(), None);
    assert_eq!(string("ab").array_len(), None);
    assert_eq!(number("2").array_len(), None);
    assert_eq!(JsonValue::Bool(true).array_len(), None);
    assert_eq!(JsonValue::Null.array_len(), None);
}

#[test]
fn decimal_text_has_no_leading_zeros() {
    assert_eq!(decimal_text(0), "0");
    assert_eq!(decimal_text(7), "7");
    assert_eq!(decimal_text(10), "10");
    assert_eq!(decimal_text(109), "109");
    assert_eq!(decimal_text(12345), "12345");
    assert_eq!(decimal_text(usize::MAX), usize::MAX.to_string());
}
