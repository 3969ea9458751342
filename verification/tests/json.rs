//! The JSON tree: parsing, serialization, and member lookup.

use imgchest::json::json_to_string;
use imgchest::json::obj_get;
use imgchest::json::parse_json;
use imgchest::json::JsonValue;
use imgchest::JsonErrorKind;

fn s(text: &str) -> String {
    String::from(text)
}

#[test]
fn parses_scalars() {
    assert_eq!(parse_json("null").unwrap(), JsonValue::Null);
    assert_eq!(parse_json("true").unwrap(), JsonValue::Bool(true));
    assert_eq!(parse_json("false").unwrap(), JsonValue::Bool(false));
    assert_eq!(parse_json("42").unwrap(), JsonValue::UInt(42));
    assert_eq!(parse_json("-7").unwrap(), JsonValue::Int(-7));
    assert_eq!(parse_json("\"hi\"").unwrap(), JsonValue::Str(s("hi")));
    assert_eq!(parse_json("  42  ").unwrap(), JsonValue::UInt(42));
}

#[test]
fn parses_numbers_at_the_integer_boundaries() {
    assert_eq!(
        parse_json("18446744073709551615").unwrap(),
        JsonValue::UInt(u64::MAX)
    );
    assert_eq!(
        parse_json("-9223372036854775808").unwrap(),
        JsonValue::Int(i64::MIN)
    );
    // Beyond the integer range the raw text is kept.
    assert_eq!(
        parse_json("18446744073709551616").unwrap(),
        JsonValue::NonInt(s("18446744073709551616"))
    );
    assert_eq!(parse_json("-0").unwrap(), JsonValue::UInt(0));
}

#[test]
fn keeps_non_integer_numbers_as_raw_text() {
    assert_eq!(parse_json("1.5").unwrap(), JsonValue::NonInt(s("1.5")));
    assert_eq!(parse_json("1e10").unwrap(), JsonValue::NonInt(s("1e10")));
    assert_eq!(
        parse_json("-2.25e-3").unwrap(),
        JsonValue::NonInt(s("-2.25e-3"))
    );
}

#[test]
fn rejects_malformed_numbers() {
    assert_eq!(parse_json("01").unwrap_err().kind, JsonErrorKind::BadNumber);
    assert_eq!(parse_json("1.").unwrap_err().kind, JsonErrorKind::BadNumber);
    assert_eq!(parse_json("-").unwrap_err().kind, JsonErrorKind::BadNumber);
    assert_eq!(parse_json("1e").unwrap_err().kind, JsonErrorKind::BadNumber);
}

#[test]
fn parses_string_escapes() {
    assert_eq!(
        parse_json(r#""a\"b\\c\/d\n\t\r\b\f""#).unwrap(),
        JsonValue::Str(s("a\"b\\c/d\n\t\r\u{8}\u{c}"))
    );
    assert_eq!(
        parse_json(r#""\u0041\u00e9""#).unwrap(),
        JsonValue::Str(s("Aé"))
    );
    // A surrogate pair yields one character.
    assert_eq!(
        parse_json(r#""\ud83d\ude00""#).unwrap(),
        JsonValue::Str(s("\u{1F600}"))
    );
}

#[test]
fn rejects_bad_escapes() {
    assert_eq!(
        parse_json(r#""\x""#).unwrap_err().kind,
        JsonErrorKind::BadEscape
    );
    // A lone high surrogate is refused.
    assert_eq!(
        parse_json(r#""\ud83d""#).unwrap_err().kind,
        JsonErrorKind::BadEscape
    );
    assert_eq!(
        parse_json("\"unterminated").unwrap_err().kind,
        JsonErrorKind::UnterminatedString
    );
}

#[test]
fn parses_arrays_and_objects() {
    let v = parse_json(r#"[1, "two", [true]]"#).unwrap();
    assert_eq!(
        v,
        JsonValue::Array(vec![
            JsonValue::UInt(1),
            JsonValue::Str(s("two")),
            JsonValue::Array(vec![JsonValue::Bool(true)]),
        ])
    );
    let v = parse_json(r#"{"a": 1, "b": {"c": null}}"#).unwrap();
    assert_eq!(
        v,
        JsonValue::Object(vec![
            (s("a"), JsonValue::UInt(1)),
            (
                s("b"),
                JsonValue::Object(vec![(s("c"), JsonValue::Null)])
            ),
        ])
    );
    assert_eq!(parse_json("[]").unwrap(), JsonValue::Array(vec![]));
    assert_eq!(parse_json("{}").unwrap(), JsonValue::Object(vec![]));
}

#[test]
fn rejects_trailing_data_and_bad_structure() {
    assert_eq!(
        parse_json("1 2").unwrap_err().kind,
        JsonErrorKind::TrailingData
    );
    assert_eq!(
        parse_json("[1,]").unwrap_err().kind,
        JsonErrorKind::ExpectedValue
    );
    assert_eq!(
        parse_json("{\"a\" 1}").unwrap_err().kind,
        JsonErrorKind::BadStructure
    );
    assert_eq!(parse_json("").unwrap_err().kind, JsonErrorKind::ExpectedValue);
    assert_eq!(
        parse_json("nul").unwrap_err().kind,
        JsonErrorKind::BadLiteral
    );
}

#[test]
fn serializes_canonically() {
    let v = JsonValue::Object(vec![
        (s("a"), JsonValue::UInt(1)),
        (s("b"), JsonValue::Str(s("x\"y"))),
        (
            s("c"),
            JsonValue::Array(vec![JsonValue::Null, JsonValue::Int(-2)]),
        ),
    ]);
    assert_eq!(json_to_string(&v), r#"{"a":1,"b":"x\"y","c":[null,-2]}"#);
    assert_eq!(json_to_string(&JsonValue::Str(s("\n"))), "\"\\n\"");
    assert_eq!(json_to_string(&JsonValue::Str(s("\u{1}"))), "\"\\u0001\"");
}

#[test]
fn parse_of_serialized_value_round_trips() {
    let v = JsonValue::Object(vec![
        (s("id"), JsonValue::Str(s("abc"))),
        (s("score"), JsonValue::Int(-3)),
        (s("tags"), JsonValue::Array(vec![JsonValue::UInt(7)])),
    ]);
    let text = json_to_string(&v);
    assert_eq!(parse_json(&text).unwrap(), v);
}

#[test]
fn object_lookup_prefers_the_last_binding() {
    let o = vec![
        (s("k"), JsonValue::UInt(1)),
        (s("other"), JsonValue::UInt(2)),
        (s("k"), JsonValue::UInt(3)),
    ];
    assert_eq!(obj_get(&o, "k"), Some(&JsonValue::UInt(3)));
    assert_eq!(obj_get(&o, "missing"), None);
}
