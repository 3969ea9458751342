//! Permissive field adapters: the server encodes some numeric fields
//! as either native integers or digit strings, some booleans as 0/1
//! or as the words `true`/`false`, and absent descriptions as empty
//! strings. Each adapter decodes every encoding the server uses and
//! re-encodes in the canonical form the server expects.

use crate::json::obj_get;
use crate::json::spec_obj_get;
use crate::json::JsonValue;
use crate::text::i64_string;
use crate::text::lemma_i64_round_trip;
use crate::text::lemma_u64_round_trip;
use crate::text::parse_i64;
use crate::text::parse_u64;
use crate::text::spec_digits;
use crate::text::spec_parse_i64;
use crate::text::spec_parse_u64;
use crate::text::spec_signed_digits;
use crate::text::str_eq;
use crate::text::u64_string;
use vstd::prelude::*;

verus! {

/// What went wrong while decoding one field.
#[derive(Debug, Clone, Copy, PartialEq, Eq, Structural)]
pub enum DecodeErrorKind {
    /// The field held a value of an unexpected JSON type.
    WrongType,
    /// The field was absent.
    Missing,
    /// The field held neither an integer in range nor a digit string.
    BadInt,
    /// A 0/1 boolean field held another integer, named here.
    BadBoolBit { value: u64 },
    /// A textual boolean field held a string other than `true`/`false`.
    BadBoolText,
    /// A date or time field did not match the expected format.
    BadDate,
}

/// A decode failure, naming the field it arose on.
#[derive(Debug, Clone)]
pub struct DecodeError {
    pub field: String,
    pub kind: DecodeErrorKind,
}

/// The `u64` a permissive integer-or-string field decodes to, if any.
pub open spec fn spec_u64_int_or_str(v: JsonValue) -> Option<u64> {
    match v {
        JsonValue::UInt(n) => Some(n),
        JsonValue::Str(s) => spec_parse_u64(s@),
        _ => None,
    }
}

/// The error kind a failed permissive `u64` decode reports.
pub open spec fn spec_u64_int_or_str_err(v: JsonValue) -> DecodeErrorKind {
    match v {
        JsonValue::Str(s) => DecodeErrorKind::BadInt,
        JsonValue::Int(i) => DecodeErrorKind::BadInt,
        _ => DecodeErrorKind::WrongType,
    }
}

/// Decode a `u64` field that may arrive as a native integer or as a
/// digit string.
pub fn decode_u64_int_or_str(v: &JsonValue, field: &str) -> (r: Result<u64, DecodeError>)
    ensures
        r matches Ok(n) ==> spec_u64_int_or_str(*v) == Some(n),
        r is Err <==> spec_u64_int_or_str(*v) is None,
        r matches Err(e) ==> e.field@ == field@ && e.kind == spec_u64_int_or_str_err(*v),
{
    match v {
        JsonValue::UInt(n) => Ok(*n),
        JsonValue::Str(s) => match parse_u64(s.as_str()) {
            Some(n) => Ok(n),
            None => Err(
                DecodeError { field: field_name(field), kind: DecodeErrorKind::BadInt },
            ),
        },
        JsonValue::Int(i) => Err(
            DecodeError { field: field_name(field), kind: DecodeErrorKind::BadInt },
        ),
        _ => Err(DecodeError { field: field_name(field), kind: DecodeErrorKind::WrongType }),
    }
}

/// The `i64` a permissive integer-or-string field decodes to, if any.
pub open spec fn spec_i64_int_or_str(v: JsonValue) -> Option<i64> {
    match v {
        JsonValue::UInt(n) => if n <= i64::MAX {
            Some(n as i64)
        } else {
            None
        },
        JsonValue::Int(i) => Some(i),
        JsonValue::Str(s) => spec_parse_i64(s@),
        _ => None,
    }
}

/// The error kind a failed permissive `i64` decode reports.
pub open spec fn spec_i64_int_or_str_err(v: JsonValue) -> DecodeErrorKind {
    match v {
        JsonValue::Str(s) => DecodeErrorKind::BadInt,
        JsonValue::UInt(n) => DecodeErrorKind::BadInt,
        _ => DecodeErrorKind::WrongType,
    }
}

/// Decode an `i64` field that may arrive as a native integer or as a
/// digit string.
pub fn decode_i64_int_or_str(v: &JsonValue, field: &str) -> (r: Result<i64, DecodeError>)
    ensures
        r matches Ok(n) ==> spec_i64_int_or_str(*v) == Some(n),
        r is Err <==> spec_i64_int_or_str(*v) is None,
        r matches Err(e) ==> e.field@ == field@ && e.kind == spec_i64_int_or_str_err(*v),
{
    match v {
        JsonValue::UInt(n) => {
            if *n <= i64::MAX as u64 {
                Ok(*n as i64)
            } else {
                Err(DecodeError { field: field_name(field), kind: DecodeErrorKind::BadInt })
            }
        },
        JsonValue::Int(i) => Ok(*i),
        JsonValue::Str(s) => match parse_i64(s.as_str()) {
            Some(n) => Ok(n),
            None => Err(
                DecodeError { field: field_name(field), kind: DecodeErrorKind::BadInt },
            ),
        },
        _ => Err(DecodeError { field: field_name(field), kind: DecodeErrorKind::WrongType }),
    }
}

/// Encode a `u64` in the string form the server uses on the wire.
pub fn encode_u64_str(n: u64) -> (v: JsonValue)
    ensures
        v matches JsonValue::Str(s) && s@ == spec_digits(n as int),
{
    JsonValue::Str(u64_string(n))
}

/// Encode an `i64` in the string form the server uses on the wire.
pub fn encode_i64_str(n: i64) -> (v: JsonValue)
    ensures
        v matches JsonValue::Str(s) && s@ == spec_signed_digits(n as int),
{
    JsonValue::Str(i64_string(n))
}

/// The boolean a 0/1-encoded field decodes to, if any.
pub open spec fn spec_bool_u8(v: JsonValue) -> Option<bool> {
    match v {
        JsonValue::UInt(n) => if n == 0 {
            Some(false)
        } else if n == 1 {
            Some(true)
        } else {
            None
        },
        _ => None,
    }
}

/// The error kind a failed 0/1 boolean decode reports.
pub open spec fn spec_bool_u8_err(v: JsonValue) -> DecodeErrorKind {
    match v {
        JsonValue::UInt(n) => DecodeErrorKind::BadBoolBit { value: n },
        _ => DecodeErrorKind::WrongType,
    }
}

/// Decode a boolean field encoded as the integer 0 or 1; any other
/// integer is an error naming that value.
pub fn decode_bool_u8(v: &JsonValue, field: &str) -> (r: Result<bool, DecodeError>)
    ensures
        r matches Ok(b) ==> spec_bool_u8(*v) == Some(b),
        r is Err <==> spec_bool_u8(*v) is None,
        r matches Err(e) ==> e.field@ == field@ && e.kind == spec_bool_u8_err(*v),
{
    match v {
        JsonValue::UInt(n) => {
            if *n == 0 {
                Ok(false)
            } else if *n == 1 {
                Ok(true)
            } else {
                Err(
                    DecodeError {
                        field: field_name(field),
                        kind: DecodeErrorKind::BadBoolBit { value: *n },
                    },
                )
            }
        },
        _ => Err(DecodeError { field: field_name(field), kind: DecodeErrorKind::WrongType }),
    }
}

/// Encode a boolean as the integer 0 or 1.
pub fn encode_bool_u8(b: bool) -> (v: JsonValue)
    ensures
        v == JsonValue::UInt(if b {
            1u64
        } else {
            0u64
        }),
{
    if b {
        JsonValue::UInt(1)
    } else {
        JsonValue::UInt(0)
    }
}

/// The boolean a string-encoded field (`"true"`/`"false"`) decodes
/// to, if any.
pub open spec fn spec_bool_text(v: JsonValue) -> Option<bool> {
    match v {
        JsonValue::Str(s) => if s@ == "true"@ {
            Some(true)
        } else if s@ == "false"@ {
            Some(false)
        } else {
            None
        },
        _ => None,
    }
}

/// The error kind a failed textual boolean decode reports.
pub open spec fn spec_bool_text_err(v: JsonValue) -> DecodeErrorKind {
    match v {
        JsonValue::Str(s) => DecodeErrorKind::BadBoolText,
        _ => DecodeErrorKind::WrongType,
    }
}

/// Decode a boolean field encoded as the word `true` or `false`.
pub fn decode_bool_text(v: &JsonValue, field: &str) -> (r: Result<bool, DecodeError>)
    ensures
        r matches Ok(b) ==> spec_bool_text(*v) == Some(b),
        r is Err <==> spec_bool_text(*v) is None,
        r matches Err(e) ==> e.field@ == field@ && e.kind == spec_bool_text_err(*v),
{
    match v {
        JsonValue::Str(s) => {
            if str_eq(s.as_str(), "true") {
                Ok(true)
            } else if str_eq(s.as_str(), "false") {
                Ok(false)
            } else {
                Err(DecodeError { field: field_name(field), kind: DecodeErrorKind::BadBoolText })
            }
        },
        _ => Err(DecodeError { field: field_name(field), kind: DecodeErrorKind::WrongType }),
    }
}

/// The optional text an empty-string-as-absent field decodes to:
/// `Some(None)` for the empty string, `Some(Some(text))` otherwise,
/// `None` for a non-string.
pub open spec fn spec_absent_empty(v: JsonValue) -> Option<Option<Seq<char>>> {
    match v {
        JsonValue::Str(s) => if s@.len() == 0 {
            Some(None)
        } else {
            Some(Some(s@))
        },
        _ => None,
    }
}

/// Decode a description field whose empty string means "no value".
pub fn decode_absent_empty(v: &JsonValue, field: &str) -> (r: Result<
    Option<String>,
    DecodeError,
>)
    ensures
        r matches Ok(o) ==> spec_absent_empty(*v) == Some(
            match o {
                Some(s) => Some(s@),
                None => None,
            },
        ),
        r is Err <==> spec_absent_empty(*v) is None,
        r matches Err(e) ==> e.field@ == field@ && e.kind == DecodeErrorKind::WrongType,
{
    match v {
        JsonValue::Str(s) => {
            if s.as_str().unicode_len() == 0 {
                Ok(None)
            } else {
                Ok(Some(s.clone()))
            }
        },
        _ => Err(DecodeError { field: field_name(field), kind: DecodeErrorKind::WrongType }),
    }
}

/// The string an optional description encodes to: the text itself,
/// or the empty string for "no value".
pub open spec fn spec_encode_absent_empty(o: Option<Seq<char>>) -> Seq<char> {
    match o {
        Some(d) => d,
        None => Seq::empty(),
    }
}

/// Encode an optional description, absence as the empty string.
pub fn encode_absent_empty(o: &Option<String>) -> (v: JsonValue)
    ensures
        v matches JsonValue::Str(s) && s@ == spec_encode_absent_empty(
            match o {
                Some(d) => Some(d@),
                None => None,
            },
        ),
{
    match o {
        Some(d) => JsonValue::Str(d.clone()),
        None => JsonValue::Str(new_string()),
    }
}

/// The view of an optional string, field by field.
pub open spec fn view_opt_str(o: Option<String>) -> Option<Seq<char>> {
    match o {
        Some(s) => Some(s@),
        None => None,
    }
}

fn new_string() -> (s: String)
    ensures
        s@ == Seq::<char>::empty(),
{
    String::new()
}

fn field_name(field: &str) -> (s: String)
    ensures
        s@ == field@,
{
    String::from_str(field)
}

// ---- Field access on a decoded object ----
//
// Each helper exists at two levels: a spec function over the value
// bound to a key (shared by every caller), and an executable lookup
// whose result it pins down. A failed lookup names the field.

/// The text of a required string field.
pub open spec fn spec_val_str(vo: Option<JsonValue>, name: Seq<char>) -> Result<
    Seq<char>,
    (Seq<char>, DecodeErrorKind),
> {
    match vo {
        Option::None => Err((name, DecodeErrorKind::Missing)),
        Option::Some(JsonValue::Str(s)) => Ok(s@),
        Option::Some(_) => Err((name, DecodeErrorKind::WrongType)),
    }
}

/// The value of a required plain `u64` field.
pub open spec fn spec_val_u64(vo: Option<JsonValue>, name: Seq<char>) -> Result<
    u64,
    (Seq<char>, DecodeErrorKind),
> {
    match vo {
        Option::None => Err((name, DecodeErrorKind::Missing)),
        Option::Some(JsonValue::UInt(n)) => Ok(n),
        Option::Some(JsonValue::Int(i)) => Err((name, DecodeErrorKind::BadInt)),
        Option::Some(_) => Err((name, DecodeErrorKind::WrongType)),
    }
}

/// The value of a required plain `i32` field.
pub open spec fn spec_val_i32(vo: Option<JsonValue>, name: Seq<char>) -> Result<
    i32,
    (Seq<char>, DecodeErrorKind),
> {
    match vo {
        Option::None => Err((name, DecodeErrorKind::Missing)),
        Option::Some(JsonValue::UInt(n)) => if n <= i32::MAX {
            Ok(n as i32)
        } else {
            Err((name, DecodeErrorKind::BadInt))
        },
        Option::Some(JsonValue::Int(i)) => if i >= i32::MIN {
            Ok(i as i32)
        } else {
            Err((name, DecodeErrorKind::BadInt))
        },
        Option::Some(_) => Err((name, DecodeErrorKind::WrongType)),
    }
}

/// The value of a required positive `u32` field (a 1-based position).
pub open spec fn spec_val_pos_u32(vo: Option<JsonValue>, name: Seq<char>) -> Result<
    u32,
    (Seq<char>, DecodeErrorKind),
> {
    match vo {
        Option::None => Err((name, DecodeErrorKind::Missing)),
        Option::Some(JsonValue::UInt(n)) => if 1 <= n <= u32::MAX {
            Ok(n as u32)
        } else {
            Err((name, DecodeErrorKind::BadInt))
        },
        Option::Some(JsonValue::Int(i)) => Err((name, DecodeErrorKind::BadInt)),
        Option::Some(_) => Err((name, DecodeErrorKind::WrongType)),
    }
}

/// The text of an optional string field: absent or null is "none".
pub open spec fn spec_val_opt_str(vo: Option<JsonValue>, name: Seq<char>) -> Result<
    Option<Seq<char>>,
    (Seq<char>, DecodeErrorKind),
> {
    match vo {
        Option::None => Ok(None),
        Option::Some(JsonValue::Null) => Ok(None),
        Option::Some(JsonValue::Str(s)) => Ok(Some(s@)),
        Option::Some(_) => Err((name, DecodeErrorKind::WrongType)),
    }
}

/// A required description field whose empty string means "none".
pub open spec fn spec_val_desc(vo: Option<JsonValue>, name: Seq<char>) -> Result<
    Option<Seq<char>>,
    (Seq<char>, DecodeErrorKind),
> {
    match vo {
        Option::None => Err((name, DecodeErrorKind::Missing)),
        Option::Some(v) => match spec_absent_empty(v) {
            Some(o) => Ok(o),
            None => Err((name, DecodeErrorKind::WrongType)),
        },
    }
}

/// A required permissive `u64` field (native integer or digit string).
pub open spec fn spec_val_u64_permissive(vo: Option<JsonValue>, name: Seq<char>) -> Result<
    u64,
    (Seq<char>, DecodeErrorKind),
> {
    match vo {
        Option::None => Err((name, DecodeErrorKind::Missing)),
        Option::Some(v) => match spec_u64_int_or_str(v) {
            Some(n) => Ok(n),
            None => Err((name, spec_u64_int_or_str_err(v))),
        },
    }
}

/// A required permissive `i64` field (native integer or digit string).
pub open spec fn spec_val_i64_permissive(vo: Option<JsonValue>, name: Seq<char>) -> Result<
    i64,
    (Seq<char>, DecodeErrorKind),
> {
    match vo {
        Option::None => Err((name, DecodeErrorKind::Missing)),
        Option::Some(v) => match spec_i64_int_or_str(v) {
            Some(n) => Ok(n),
            None => Err((name, spec_i64_int_or_str_err(v))),
        },
    }
}

/// A required 0/1 boolean field.
pub open spec fn spec_val_bool_u8(vo: Option<JsonValue>, name: Seq<char>) -> Result<
    bool,
    (Seq<char>, DecodeErrorKind),
> {
    match vo {
        Option::None => Err((name, DecodeErrorKind::Missing)),
        Option::Some(v) => match spec_bool_u8(v) {
            Some(b) => Ok(b),
            None => Err((name, spec_bool_u8_err(v))),
        },
    }
}

/// A required textual boolean field (`"true"`/`"false"`).
pub open spec fn spec_val_bool_text(vo: Option<JsonValue>, name: Seq<char>) -> Result<
    bool,
    (Seq<char>, DecodeErrorKind),
> {
    match vo {
        Option::None => Err((name, DecodeErrorKind::Missing)),
        Option::Some(v) => match spec_bool_text(v) {
            Some(b) => Ok(b),
            None => Err((name, spec_bool_text_err(v))),
        },
    }
}

/// A required ISO-8601 instant field.
pub open spec fn spec_val_datetime_iso(vo: Option<JsonValue>, name: Seq<char>) -> Result<
    crate::date::DateTime,
    (Seq<char>, DecodeErrorKind),
> {
    match vo {
        Option::None => Err((name, DecodeErrorKind::Missing)),
        Option::Some(JsonValue::Str(s)) => match crate::date::spec_parse_iso8601(s@) {
            Some(dt) => Ok(dt),
            None => Err((name, DecodeErrorKind::BadDate)),
        },
        Option::Some(_) => Err((name, DecodeErrorKind::WrongType)),
    }
}

/// A required `MM/DD/YYYY` date field, read as midnight UTC.
pub open spec fn spec_val_datetime_mdy(vo: Option<JsonValue>, name: Seq<char>) -> Result<
    crate::date::DateTime,
    (Seq<char>, DecodeErrorKind),
> {
    match vo {
        Option::None => Err((name, DecodeErrorKind::Missing)),
        Option::Some(JsonValue::Str(s)) => match crate::date::spec_parse_mdy(s@) {
            Some(dt) => Ok(dt),
            None => Err((name, DecodeErrorKind::BadDate)),
        },
        Option::Some(_) => Err((name, DecodeErrorKind::WrongType)),
    }
}

/// Look up and decode a required string field.
pub fn field_str(o: &Vec<(String, JsonValue)>, name: &str) -> (r: Result<String, DecodeError>)
    ensures
        r matches Ok(s) ==> spec_val_str(spec_obj_get(o@, name@), name@) == Ok::<
            Seq<char>,
            (Seq<char>, DecodeErrorKind),
        >(s@),
        r matches Err(e) ==> spec_val_str(spec_obj_get(o@, name@), name@) matches Err(f)
            && e.field@ == f.0 && e.kind == f.1,
{
    match obj_get(o, name) {
        Some(v) => match v {
            JsonValue::Str(s) => Ok(s.clone()),
            _ => Err(DecodeError { field: field_name(name), kind: DecodeErrorKind::WrongType }),
        },
        None => Err(DecodeError { field: field_name(name), kind: DecodeErrorKind::Missing }),
    }
}

/// Look up and decode a required plain `u64` field.
pub fn field_u64(o: &Vec<(String, JsonValue)>, name: &str) -> (r: Result<u64, DecodeError>)
    ensures
        r matches Ok(n) ==> spec_val_u64(spec_obj_get(o@, name@), name@) == Ok::<
            u64,
            (Seq<char>, DecodeErrorKind),
        >(n),
        r matches Err(e) ==> spec_val_u64(spec_obj_get(o@, name@), name@) matches Err(f)
            && e.field@ == f.0 && e.kind == f.1,
{
    match obj_get(o, name) {
        Some(v) => match v {
            JsonValue::UInt(n) => Ok(*n),
            JsonValue::Int(i) => Err(
                DecodeError { field: field_name(name), kind: DecodeErrorKind::BadInt },
            ),
            _ => Err(DecodeError { field: field_name(name), kind: DecodeErrorKind::WrongType }),
        },
        None => Err(DecodeError { field: field_name(name), kind: DecodeErrorKind::Missing }),
    }
}

/// Look up and decode a required plain `i32` field.
pub fn field_i32(o: &Vec<(String, JsonValue)>, name: &str) -> (r: Result<i32, DecodeError>)
    ensures
        r matches Ok(n) ==> spec_val_i32(spec_obj_get(o@, name@), name@) == Ok::<
            i32,
            (Seq<char>, DecodeErrorKind),
        >(n),
        r matches Err(e) ==> spec_val_i32(spec_obj_get(o@, name@), name@) matches Err(f)
            && e.field@ == f.0 && e.kind == f.1,
{
    match obj_get(o, name) {
        Some(v) => match v {
            JsonValue::UInt(n) => {
                if *n <= i32::MAX as u64 {
                    Ok(*n as i32)
                } else {
                    Err(DecodeError { field: field_name(name), kind: DecodeErrorKind::BadInt })
                }
            },
            JsonValue::Int(i) => {
                if *i >= i32::MIN as i64 {
                    Ok(*i as i32)
                } else {
                    Err(DecodeError { field: field_name(name), kind: DecodeErrorKind::BadInt })
                }
            },
            _ => Err(DecodeError { field: field_name(name), kind: DecodeErrorKind::WrongType }),
        },
        None => Err(DecodeError { field: field_name(name), kind: DecodeErrorKind::Missing }),
    }
}

/// Look up and decode a required positive `u32` field.
pub fn field_pos_u32(o: &Vec<(String, JsonValue)>, name: &str) -> (r: Result<u32, DecodeError>)
    ensures
        r matches Ok(n) ==> spec_val_pos_u32(spec_obj_get(o@, name@), name@) == Ok::<
            u32,
            (Seq<char>, DecodeErrorKind),
        >(n),
        r matches Ok(n) ==> n >= 1,
        r matches Err(e) ==> spec_val_pos_u32(spec_obj_get(o@, name@), name@) matches Err(f)
            && e.field@ == f.0 && e.kind == f.1,
{
    match obj_get(o, name) {
        Some(v) => match v {
            JsonValue::UInt(n) => {
                if 1 <= *n && *n <= u32::MAX as u64 {
                    Ok(*n as u32)
                } else {
                    Err(DecodeError { field: field_name(name), kind: DecodeErrorKind::BadInt })
                }
            },
            JsonValue::Int(i) => Err(
                DecodeError { field: field_name(name), kind: DecodeErrorKind::BadInt },
            ),
            _ => Err(DecodeError { field: field_name(name), kind: DecodeErrorKind::WrongType }),
        },
        None => Err(DecodeError { field: field_name(name), kind: DecodeErrorKind::Missing }),
    }
}

/// Look up and decode an optional string field.
pub fn field_opt_str(o: &Vec<(String, JsonValue)>, name: &str) -> (r: Result<
    Option<String>,
    DecodeError,
>)
    ensures
        r matches Ok(s) ==> spec_val_opt_str(spec_obj_get(o@, name@), name@) == Ok::<
            Option<Seq<char>>,
            (Seq<char>, DecodeErrorKind),
        >(
            match s {
                Some(t) => Some(t@),
                None => None,
            },
        ),
        r matches Err(e) ==> spec_val_opt_str(spec_obj_get(o@, name@), name@) matches Err(f)
            && e.field@ == f.0 && e.kind == f.1,
{
    match obj_get(o, name) {
        Some(v) => match v {
            JsonValue::Null => Ok(None),
            JsonValue::Str(s) => Ok(Some(s.clone())),
            _ => Err(DecodeError { field: field_name(name), kind: DecodeErrorKind::WrongType }),
        },
        None => Ok(None),
    }
}

/// Look up and decode a required description field whose empty
/// string means "none".
pub fn field_desc(o: &Vec<(String, JsonValue)>, name: &str) -> (r: Result<
    Option<String>,
    DecodeError,
>)
    ensures
        r matches Ok(s) ==> spec_val_desc(spec_obj_get(o@, name@), name@) == Ok::<
            Option<Seq<char>>,
            (Seq<char>, DecodeErrorKind),
        >(
            match s {
                Some(t) => Some(t@),
                None => None,
            },
        ),
        r matches Err(e) ==> spec_val_desc(spec_obj_get(o@, name@), name@) matches Err(f)
            && e.field@ == f.0 && e.kind == f.1,
{
    match obj_get(o, name) {
        Some(v) => match decode_absent_empty(v, name) {
            Ok(s) => Ok(s),
            Err(e) => Err(e),
        },
        None => Err(DecodeError { field: field_name(name), kind: DecodeErrorKind::Missing }),
    }
}

/// Look up and decode a required ISO-8601 instant field.
pub fn field_datetime_iso(o: &Vec<(String, JsonValue)>, name: &str) -> (r: Result<
    crate::date::DateTime,
    DecodeError,
>)
    ensures
        r matches Ok(dt) ==> spec_val_datetime_iso(spec_obj_get(o@, name@), name@) == Ok::<
            crate::date::DateTime,
            (Seq<char>, DecodeErrorKind),
        >(dt) && dt.wf(),
        r matches Err(e) ==> spec_val_datetime_iso(spec_obj_get(o@, name@), name@) matches Err(f)
            && e.field@ == f.0 && e.kind == f.1,
{
    match obj_get(o, name) {
        Some(v) => match v {
            JsonValue::Str(s) => match crate::date::parse_iso8601(s.as_str()) {
                Some(dt) => Ok(dt),
                None => Err(
                    DecodeError { field: field_name(name), kind: DecodeErrorKind::BadDate },
                ),
            },
            _ => Err(DecodeError { field: field_name(name), kind: DecodeErrorKind::WrongType }),
        },
        None => Err(DecodeError { field: field_name(name), kind: DecodeErrorKind::Missing }),
    }
}

/// Look up and decode a required `MM/DD/YYYY` date field.
pub fn field_datetime_mdy(o: &Vec<(String, JsonValue)>, name: &str) -> (r: Result<
    crate::date::DateTime,
    DecodeError,
>)
    ensures
        r matches Ok(dt) ==> spec_val_datetime_mdy(spec_obj_get(o@, name@), name@) == Ok::<
            crate::date::DateTime,
            (Seq<char>, DecodeErrorKind),
        >(dt) && dt.wf(),
        r matches Err(e) ==> spec_val_datetime_mdy(spec_obj_get(o@, name@), name@) matches Err(f)
            && e.field@ == f.0 && e.kind == f.1,
{
    match obj_get(o, name) {
        Some(v) => match v {
            JsonValue::Str(s) => match crate::date::parse_mdy_date(s.as_str()) {
                Some(dt) => Ok(dt),
                None => Err(
                    DecodeError { field: field_name(name), kind: DecodeErrorKind::BadDate },
                ),
            },
            _ => Err(DecodeError { field: field_name(name), kind: DecodeErrorKind::WrongType }),
        },
        None => Err(DecodeError { field: field_name(name), kind: DecodeErrorKind::Missing }),
    }
}

/// Look up and decode a required plain `u64` field that the server
/// may also stringify.
pub fn field_u64_permissive(o: &Vec<(String, JsonValue)>, name: &str) -> (r: Result<
    u64,
    DecodeError,
>)
    ensures
        r matches Ok(n) ==> spec_val_u64_permissive(spec_obj_get(o@, name@), name@) == Ok::<
            u64,
            (Seq<char>, DecodeErrorKind),
        >(n),
        r matches Err(e) ==> spec_val_u64_permissive(spec_obj_get(o@, name@), name@) matches Err(f)
            && e.field@ == f.0 && e.kind == f.1,
{
    match obj_get(o, name) {
        Some(v) => decode_u64_int_or_str(v, name),
        None => Err(DecodeError { field: field_name(name), kind: DecodeErrorKind::Missing }),
    }
}

/// Look up and decode a required textual boolean field.
pub fn field_bool_text(o: &Vec<(String, JsonValue)>, name: &str) -> (r: Result<bool, DecodeError>)
    ensures
        r matches Ok(b) ==> spec_val_bool_text(spec_obj_get(o@, name@), name@) == Ok::<
            bool,
            (Seq<char>, DecodeErrorKind),
        >(b),
        r matches Err(e) ==> spec_val_bool_text(spec_obj_get(o@, name@), name@) matches Err(f)
            && e.field@ == f.0 && e.kind == f.1,
{
    match obj_get(o, name) {
        Some(v) => decode_bool_text(v, name),
        None => Err(DecodeError { field: field_name(name), kind: DecodeErrorKind::Missing }),
    }
}

// ---- Field decoding of values already taken out of an object ----

/// Decode a required string field already taken out of its object.
pub fn val_str(vo: Option<JsonValue>, name: &str) -> (r: Result<String, DecodeError>)
    ensures
        r matches Ok(s) ==> spec_val_str(vo, name@) == Ok::<Seq<char>, (Seq<char>, DecodeErrorKind)>(
            s@,
        ),
        r matches Err(e) ==> spec_val_str(vo, name@) matches Err(f) && e.field@ == f.0 && e.kind
            == f.1,
{
    match vo {
        Some(v) => match v {
            JsonValue::Str(s) => Ok(s),
            _ => Err(DecodeError { field: field_name(name), kind: DecodeErrorKind::WrongType }),
        },
        None => Err(DecodeError { field: field_name(name), kind: DecodeErrorKind::Missing }),
    }
}

/// Decode a required plain `u64` field already taken out of its
/// object.
pub fn val_u64(vo: Option<JsonValue>, name: &str) -> (r: Result<u64, DecodeError>)
    ensures
        r matches Ok(n) ==> spec_val_u64(vo, name@) == Ok::<u64, (Seq<char>, DecodeErrorKind)>(n),
        r matches Err(e) ==> spec_val_u64(vo, name@) matches Err(f) && e.field@ == f.0 && e.kind
            == f.1,
{
    match vo {
        Some(v) => match v {
            JsonValue::UInt(n) => Ok(n),
            JsonValue::Int(i) => Err(
                DecodeError { field: field_name(name), kind: DecodeErrorKind::BadInt },
            ),
            _ => Err(DecodeError { field: field_name(name), kind: DecodeErrorKind::WrongType }),
        },
        None => Err(DecodeError { field: field_name(name), kind: DecodeErrorKind::Missing }),
    }
}

/// Decode an optional string field already taken out of its object.
pub fn val_opt_str(vo: Option<JsonValue>, name: &str) -> (r: Result<Option<String>, DecodeError>)
    ensures
        r matches Ok(s) ==> spec_val_opt_str(vo, name@) == Ok::<
            Option<Seq<char>>,
            (Seq<char>, DecodeErrorKind),
        >(view_opt_str(s)),
        r matches Err(e) ==> spec_val_opt_str(vo, name@) matches Err(f) && e.field@ == f.0
            && e.kind == f.1,
{
    match vo {
        Some(v) => match v {
            JsonValue::Null => Ok(None),
            JsonValue::Str(s) => Ok(Some(s)),
            _ => Err(DecodeError { field: field_name(name), kind: DecodeErrorKind::WrongType }),
        },
        None => Ok(None),
    }
}

/// Decode a required 0/1 boolean field already taken out of its
/// object.
pub fn val_bool_u8(vo: Option<JsonValue>, name: &str) -> (r: Result<bool, DecodeError>)
    ensures
        r matches Ok(b) ==> spec_val_bool_u8(vo, name@) == Ok::<bool, (Seq<char>, DecodeErrorKind)>(
            b,
        ),
        r matches Err(e) ==> spec_val_bool_u8(vo, name@) matches Err(f) && e.field@ == f.0
            && e.kind == f.1,
{
    match vo {
        Some(v) => decode_bool_u8(&v, name),
        None => Err(DecodeError { field: field_name(name), kind: DecodeErrorKind::Missing }),
    }
}

/// Decode a required permissive `u64` field already taken out of its
/// object.
pub fn val_u64_permissive(vo: Option<JsonValue>, name: &str) -> (r: Result<u64, DecodeError>)
    ensures
        r matches Ok(n) ==> spec_val_u64_permissive(vo, name@) == Ok::<
            u64,
            (Seq<char>, DecodeErrorKind),
        >(n),
        r matches Err(e) ==> spec_val_u64_permissive(vo, name@) matches Err(f) && e.field@ == f.0
            && e.kind == f.1,
{
    match vo {
        Some(v) => decode_u64_int_or_str(&v, name),
        None => Err(DecodeError { field: field_name(name), kind: DecodeErrorKind::Missing }),
    }
}

/// Decode a required permissive `i64` field already taken out of its
/// object.
pub fn val_i64_permissive(vo: Option<JsonValue>, name: &str) -> (r: Result<i64, DecodeError>)
    ensures
        r matches Ok(n) ==> spec_val_i64_permissive(vo, name@) == Ok::<
            i64,
            (Seq<char>, DecodeErrorKind),
        >(n),
        r matches Err(e) ==> spec_val_i64_permissive(vo, name@) matches Err(f) && e.field@ == f.0
            && e.kind == f.1,
{
    match vo {
        Some(v) => decode_i64_int_or_str(&v, name),
        None => Err(DecodeError { field: field_name(name), kind: DecodeErrorKind::Missing }),
    }
}

/// Decoding the digit-string form of an integer and decoding the
/// native form yield the same value, and re-encoding yields the
/// string form: the permissive integer codec is a round trip through
/// either encoding.
pub proof fn lemma_u64_int_or_str_round_trip(n: u64, s: String)
    requires
        s@ == spec_digits(n as int),
    ensures
        spec_u64_int_or_str(JsonValue::UInt(n)) == Some(n),
        spec_u64_int_or_str(JsonValue::Str(s)) == Some(n),
{
    lemma_u64_round_trip(n);
}

/// The signed counterpart of the permissive integer round trip.
pub proof fn lemma_i64_int_or_str_round_trip(n: i64, s: String)
    requires
        s@ == spec_signed_digits(n as int),
    ensures
        n < 0 ==> spec_i64_int_or_str(JsonValue::Int(n)) == Some(n),
        n >= 0 ==> spec_i64_int_or_str(JsonValue::UInt(n as u64)) == Some(n),
        spec_i64_int_or_str(JsonValue::Str(s)) == Some(n),
{
    lemma_i64_round_trip(n);
}

/// Decoding an empty description gives "absent", re-encoding
/// "absent" gives the empty string, and the composition of encode
/// after decode is idempotent: decoding what was encoded from a
/// decoded value gives that decoded value again.
pub proof fn lemma_description_idempotent(v: JsonValue, o: Option<Seq<char>>, s2: String)
    requires
        spec_absent_empty(v) == Some(o),
        s2@ == spec_encode_absent_empty(o),
    ensures
        spec_absent_empty(JsonValue::Str(s2)) == Some(o),
{
}

/// Re-decoding an encoded description that was present and non-empty
/// gives it back unchanged; the empty description goes to "absent".
pub proof fn lemma_description_encode_decode(o: Option<Seq<char>>, s: String)
    requires
        s@ == spec_encode_absent_empty(o),
        o matches Some(d) ==> d.len() > 0,
    ensures
        spec_absent_empty(JsonValue::Str(s)) == Some(o),
{
}

} // verus!
