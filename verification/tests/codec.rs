//! The permissive field adapters: stringified integers, 0/1 and
//! textual booleans, and the empty-string-as-absent convention.

use imgchest::codec::decode_absent_empty;
use imgchest::codec::decode_bool_text;
use imgchest::codec::decode_bool_u8;
use imgchest::codec::decode_i64_int_or_str;
use imgchest::codec::decode_u64_int_or_str;
use imgchest::codec::encode_absent_empty;
use imgchest::codec::encode_bool_u8;
use imgchest::codec::encode_i64_str;
use imgchest::codec::encode_u64_str;
use imgchest::codec::DecodeErrorKind;
use imgchest::json::JsonValue;
use imgchest::text::parse_i64;
use imgchest::text::parse_u64;

fn s(text: &str) -> String {
    String::from(text)
}

#[test]
fn decimal_parsing_matches_std() {
    for case in ["0", "42", "+42", "18446744073709551615", "007"] {
        assert_eq!(parse_u64(case), case.parse::<u64>().ok(), "case {case}");
    }
    for case in ["", "-1", "18446744073709551616", "4 2", "x", "+"] {
        assert_eq!(parse_u64(case), case.parse::<u64>().ok(), "case {case}");
    }
    for case in [
        "0",
        "-9223372036854775808",
        "9223372036854775807",
        "-9223372036854775809",
        "9223372036854775808",
        "+17",
        "-0",
        "--2",
        "",
    ] {
        assert_eq!(parse_i64(case), case.parse::<i64>().ok(), "case {case}");
    }
}

#[test]
fn stringified_and_native_integers_decode_alike() {
    // Decoding "42" and decoding 42 yield the identical value.
    let from_str = decode_u64_int_or_str(&JsonValue::Str(s("42")), "comments").unwrap();
    let from_int = decode_u64_int_or_str(&JsonValue::UInt(42), "comments").unwrap();
    assert_eq!(from_str, 42);
    assert_eq!(from_int, 42);
    let from_str = decode_i64_int_or_str(&JsonValue::Str(s("-5")), "score").unwrap();
    let from_int = decode_i64_int_or_str(&JsonValue::Int(-5), "score").unwrap();
    assert_eq!(from_str, -5);
    assert_eq!(from_int, -5);
}

#[test]
fn re_encoding_always_produces_the_string_form() {
    assert_eq!(encode_u64_str(42), JsonValue::Str(s("42")));
    assert_eq!(encode_i64_str(-5), JsonValue::Str(s("-5")));
    assert_eq!(encode_i64_str(0), JsonValue::Str(s("0")));
    // And the string form decodes back to the same value.
    assert_eq!(
        decode_u64_int_or_str(&encode_u64_str(42), "comments").unwrap(),
        42
    );
    assert_eq!(
        decode_i64_int_or_str(&encode_i64_str(-5), "score").unwrap(),
        -5
    );
}

#[test]
fn integer_decode_failures_name_the_field() {
    let e = decode_u64_int_or_str(&JsonValue::Str(s("4x")), "comments").unwrap_err();
    assert_eq!(e.field, "comments");
    assert_eq!(e.kind, DecodeErrorKind::BadInt);
    let e = decode_u64_int_or_str(&JsonValue::Int(-1), "comments").unwrap_err();
    assert_eq!(e.kind, DecodeErrorKind::BadInt);
    let e = decode_u64_int_or_str(&JsonValue::Null, "comments").unwrap_err();
    assert_eq!(e.kind, DecodeErrorKind::WrongType);
}

#[test]
fn zero_one_booleans_decode_and_errors_name_the_value() {
    assert_eq!(decode_bool_u8(&JsonValue::UInt(0), "nsfw").unwrap(), false);
    assert_eq!(decode_bool_u8(&JsonValue::UInt(1), "nsfw").unwrap(), true);
    let e = decode_bool_u8(&JsonValue::UInt(2), "nsfw").unwrap_err();
    assert_eq!(e.field, "nsfw");
    assert_eq!(e.kind, DecodeErrorKind::BadBoolBit { value: 2 });
    let e = decode_bool_u8(&JsonValue::Str(s("1")), "nsfw").unwrap_err();
    assert_eq!(e.kind, DecodeErrorKind::WrongType);
    assert_eq!(encode_bool_u8(true), JsonValue::UInt(1));
    assert_eq!(encode_bool_u8(false), JsonValue::UInt(0));
}

#[test]
fn textual_booleans_accept_exactly_two_words() {
    assert_eq!(
        decode_bool_text(&JsonValue::Str(s("true")), "success").unwrap(),
        true
    );
    assert_eq!(
        decode_bool_text(&JsonValue::Str(s("false")), "success").unwrap(),
        false
    );
    let e = decode_bool_text(&JsonValue::Str(s("yes")), "success").unwrap_err();
    assert_eq!(e.kind, DecodeErrorKind::BadBoolText);
    let e = decode_bool_text(&JsonValue::Bool(true), "success").unwrap_err();
    assert_eq!(e.kind, DecodeErrorKind::WrongType);
}

#[test]
fn empty_string_decodes_to_absent() {
    assert_eq!(
        decode_absent_empty(&JsonValue::Str(s("")), "description").unwrap(),
        None
    );
    assert_eq!(
        decode_absent_empty(&JsonValue::Str(s("a cat")), "description").unwrap(),
        Some(s("a cat"))
    );
    let e = decode_absent_empty(&JsonValue::Null, "description").unwrap_err();
    assert_eq!(e.kind, DecodeErrorKind::WrongType);
}

#[test]
fn absent_encodes_to_the_empty_string_and_composition_is_idempotent() {
    assert_eq!(encode_absent_empty(&None), JsonValue::Str(s("")));
    assert_eq!(
        encode_absent_empty(&Some(s("hello"))),
        JsonValue::Str(s("hello"))
    );
    // decode ∘ encode ∘ decode == decode, on every described input.
    for v in [JsonValue::Str(s("")), JsonValue::Str(s("hello"))] {
        let once = decode_absent_empty(&v, "description").unwrap();
        let re = encode_absent_empty(&once);
        let twice = decode_absent_empty(&re, "description").unwrap();
        assert_eq!(once, twice);
    }
}
