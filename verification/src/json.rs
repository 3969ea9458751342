//! A JSON document tree, with a verified serializer and parser.
//!
//! The server's payloads are plain JSON; this module holds them as
//! explicit values so that the typed decoding of each response can be
//! specified and proved over them. The serializer's output is pinned
//! character by character by [`spec_json_text`]; the parser is
//! verified to terminate, to yield only well-formed values, and to
//! return the exact value on the canonical text of every scalar and
//! of the empty array and object; the exact field-level contracts
//! live in the typed decoders layered on top of the tree.

use crate::text::all_digits;
use crate::text::chars_range_to_string;
use crate::text::chars_to_string;
use crate::text::digit_val;
use crate::text::digits_val;
use crate::text::is_digit_char;
use crate::text::lemma_digits_val_of_spec_digits;
use crate::text::lemma_spec_digits_all_digits;
use crate::text::lemma_spec_digits_no_leading_zero;
use crate::text::push_i64_digits;
use crate::text::push_str_chars;
use crate::text::push_u64_digits;
use crate::text::spec_digits;
use crate::text::spec_parse_i64;
use crate::text::spec_parse_u64_digits;
use crate::text::spec_signed_digits;
use crate::text::str_eq;
use crate::JsonError;
use crate::JsonErrorKind;
use vstd::prelude::*;

verus! {

broadcast use vstd::string::group_string_axioms;

/// One JSON value.
///
/// Numbers keep the distinctions a decoder needs: a non-negative
/// integer, a negative integer, or any other number (kept as its raw
/// text, since the decoders of this crate never consume one).
#[derive(Debug, PartialEq)]
pub enum JsonValue {
    Null,
    Bool(bool),
    /// An integer in `0..=u64::MAX`.
    UInt(u64),
    /// An integer in `i64::MIN..0`.
    Int(i64),
    /// A number that is not such an integer, as its raw text.
    NonInt(String),
    Str(String),
    Array(Vec<JsonValue>),
    Object(Vec<(String, JsonValue)>),
}

/// Well-formedness of a parsed value: the `Int` variant is reserved
/// for negative integers, so that each integer has one canonical
/// representation.
pub open spec fn wf_json(v: JsonValue) -> bool
    decreases v,
{
    match v {
        JsonValue::Int(i) => i < 0,
        JsonValue::Array(a) => forall|i: int| 0 <= i < a@.len() ==> wf_json(#[trigger] a@[i]),
        JsonValue::Object(o) => forall|i: int| 0 <= i < o@.len() ==> wf_json(#[trigger] o@[i].1),
        _ => true,
    }
}

/// The hexadecimal digit character for `d`.
pub open spec fn hex_char(d: int) -> char {
    if d == 0 {
        '0'
    } else if d == 1 {
        '1'
    } else if d == 2 {
        '2'
    } else if d == 3 {
        '3'
    } else if d == 4 {
        '4'
    } else if d == 5 {
        '5'
    } else if d == 6 {
        '6'
    } else if d == 7 {
        '7'
    } else if d == 8 {
        '8'
    } else if d == 9 {
        '9'
    } else if d == 10 {
        'a'
    } else if d == 11 {
        'b'
    } else if d == 12 {
        'c'
    } else if d == 13 {
        'd'
    } else if d == 14 {
        'e'
    } else {
        'f'
    }
}

/// How one character is written inside a JSON string literal.
pub open spec fn spec_escape_char(c: char) -> Seq<char> {
    if c == '"' {
        seq!['\\', '"']
    } else if c == '\\' {
        seq!['\\', '\\']
    } else if c == '\u{8}' {
        seq!['\\', 'b']
    } else if c == '\u{c}' {
        seq!['\\', 'f']
    } else if c == '\n' {
        seq!['\\', 'n']
    } else if c == '\r' {
        seq!['\\', 'r']
    } else if c == '\t' {
        seq!['\\', 't']
    } else if (c as int) < 32 {
        seq!['\\', 'u', '0', '0', hex_char(c as int / 16), hex_char(c as int % 16)]
    } else {
        seq![c]
    }
}

/// How a character sequence is written inside a JSON string literal.
pub open spec fn spec_escape(s: Seq<char>) -> Seq<char>
    decreases s.len(),
{
    if s.len() == 0 {
        Seq::empty()
    } else {
        spec_escape(s.drop_last()) + spec_escape_char(s.last())
    }
}

/// The serialized text of a JSON value, with no added whitespace.
pub open spec fn spec_json_text(v: JsonValue) -> Seq<char>
    decreases v,
{
    match v {
        JsonValue::Null => "null"@,
        JsonValue::Bool(b) => if b {
            "true"@
        } else {
            "false"@
        },
        JsonValue::UInt(n) => spec_digits(n as int),
        JsonValue::Int(i) => spec_signed_digits(i as int),
        JsonValue::NonInt(s) => s@,
        JsonValue::Str(s) => seq!['"'] + spec_escape(s@) + seq!['"'],
        JsonValue::Array(a) => seq!['['] + spec_items_text(a@) + seq![']'],
        JsonValue::Object(o) => seq!['{'] + spec_members_text(o@) + seq!['}'],
    }
}

/// The comma-separated serialized items of an array.
pub open spec fn spec_items_text(items: Seq<JsonValue>) -> Seq<char>
    decreases items,
{
    if items.len() == 0 {
        Seq::empty()
    } else if items.len() == 1 {
        spec_json_text(items[0])
    } else {
        spec_items_text(items.drop_last()) + seq![','] + spec_json_text(items.last())
    }
}

/// The comma-separated serialized members of an object.
pub open spec fn spec_member_text(m: (String, JsonValue)) -> Seq<char>
    decreases m,
{
    seq!['"'] + spec_escape(m.0@) + seq!['"', ':'] + spec_json_text(m.1)
}

pub open spec fn spec_members_text(members: Seq<(String, JsonValue)>) -> Seq<char>
    decreases members,
{
    if members.len() == 0 {
        Seq::empty()
    } else if members.len() == 1 {
        spec_member_text(members[0])
    } else {
        spec_members_text(members.drop_last()) + seq![','] + spec_member_text(members.last())
    }
}

fn hex_to_char(d: u32) -> (c: char)
    requires
        d < 16,
    ensures
        c == hex_char(d as int),
{
    if d == 0 {
        '0'
    } else if d == 1 {
        '1'
    } else if d == 2 {
        '2'
    } else if d == 3 {
        '3'
    } else if d == 4 {
        '4'
    } else if d == 5 {
        '5'
    } else if d == 6 {
        '6'
    } else if d == 7 {
        '7'
    } else if d == 8 {
        '8'
    } else if d == 9 {
        '9'
    } else if d == 10 {
        'a'
    } else if d == 11 {
        'b'
    } else if d == 12 {
        'c'
    } else if d == 13 {
        'd'
    } else if d == 14 {
        'e'
    } else {
        'f'
    }
}

fn push_escaped_char(c: char, out: &mut Vec<char>)
    ensures
        final(out)@ == old(out)@ + spec_escape_char(c),
{
    if c == '"' {
        out.push('\\');
        out.push('"');
        assert(out@ =~= old(out)@ + spec_escape_char(c));
    } else if c == '\\' {
        out.push('\\');
        out.push('\\');
        assert(out@ =~= old(out)@ + spec_escape_char(c));
    } else if c == '\u{8}' {
        out.push('\\');
        out.push('b');
        assert(out@ =~= old(out)@ + spec_escape_char(c));
    } else if c == '\u{c}' {
        out.push('\\');
        out.push('f');
        assert(out@ =~= old(out)@ + spec_escape_char(c));
    } else if c == '\n' {
        out.push('\\');
        out.push('n');
        assert(out@ =~= old(out)@ + spec_escape_char(c));
    } else if c == '\r' {
        out.push('\\');
        out.push('r');
        assert(out@ =~= old(out)@ + spec_escape_char(c));
    } else if c == '\t' {
        out.push('\\');
        out.push('t');
        assert(out@ =~= old(out)@ + spec_escape_char(c));
    } else if (c as u32) < 32 {
        out.push('\\');
        out.push('u');
        out.push('0');
        out.push('0');
        let d = c as u32;
        let hi = hex_to_char(d / 16);
        let lo = hex_to_char(d % 16);
        out.push(hi);
        out.push(lo);
        assert(out@ =~= old(out)@ + spec_escape_char(c));
    } else {
        out.push(c);
        assert(out@ =~= old(out)@ + spec_escape_char(c));
    }
}

/// Append the escaped form of `s` to `out`.
pub(crate) fn push_escaped(s: &str, out: &mut Vec<char>)
    ensures
        final(out)@ == old(out)@ + spec_escape(s@),
{
    let n = s.unicode_len();
    let mut i: usize = 0;
    while i < n
        invariant
            i <= n,
            n == s@.len(),
            out@ == old(out)@ + spec_escape(s@.take(i as int)),
        decreases n - i,
    {
        let c = s.get_char(i);
        push_escaped_char(c, out);
        proof {
            assert(s@.take(i + 1).drop_last() =~= s@.take(i as int));
            assert(s@.take(i + 1).last() == s@[i as int]);
        }
        i = i + 1;
    }
    proof {
        assert(s@.take(n as int) =~= s@);
    }
}

/// Append the serialized text of `v` to `out`.
#[verifier::loop_isolation(false)]
#[verifier::rlimit(80)]
pub fn push_json_text(v: &JsonValue, out: &mut Vec<char>)
    ensures
        final(out)@ == old(out)@ + spec_json_text(*v),
    decreases *v,
{
    match v {
        JsonValue::Null => {
            push_str_chars(out, "null");
        },
        JsonValue::Bool(b) => {
            if *b {
                push_str_chars(out, "true");
            } else {
                push_str_chars(out, "false");
            }
        },
        JsonValue::UInt(n) => {
            push_u64_digits(*n, out);
        },
        JsonValue::Int(i) => {
            push_i64_digits(*i, out);
        },
        JsonValue::NonInt(s) => {
            push_str_chars(out, s.as_str());
        },
        JsonValue::Str(s) => {
            out.push('"');
            push_escaped(s.as_str(), out);
            out.push('"');
            assert(out@ =~= old(out)@ + spec_json_text(*v));
        },
        JsonValue::Array(a) => {
            out.push('[');
            let n = a.len();
            let mut i: usize = 0;
            while i < n
                invariant
                    i <= n,
                    n == a@.len(),
                    out@ == old(out)@ + seq!['['] + spec_items_text(a@.take(i as int)),
                decreases n - i,
            {
                if i > 0 {
                    out.push(',');
                }
                proof {
                    assert(*a == v->Array_0);
                    assert(decreases_to!(*v => v->Array_0));
                    assert(decreases_to!(*a => a@));
                    assert(decreases_to!(a@ => a@[i as int]));
                }
                push_json_text(&a[i], out);
                proof {
                    assert(a@.take(i + 1).drop_last() =~= a@.take(i as int));
                    assert(a@.take(i + 1).last() == a@[i as int]);
                    assert(out@ =~= old(out)@ + seq!['['] + spec_items_text(a@.take(i + 1)));
                }
                i = i + 1;
            }
            out.push(']');
            proof {
                assert(a@.take(n as int) =~= a@);
                assert(out@ =~= old(out)@ + spec_json_text(*v));
            }
        },
        JsonValue::Object(o) => {
            out.push('{');
            let n = o.len();
            let mut i: usize = 0;
            while i < n
                invariant
                    i <= n,
                    n == o@.len(),
                    out@ == old(out)@ + seq!['{'] + spec_members_text(o@.take(i as int)),
                decreases n - i,
            {
                if i > 0 {
                    out.push(',');
                }
                out.push('"');
                push_escaped(o[i].0.as_str(), out);
                out.push('"');
                out.push(':');
                proof {
                    assert(*o == v->Object_0);
                    assert(decreases_to!(*v => v->Object_0));
                    assert(decreases_to!(*o => o@));
                    assert(decreases_to!(o@ => o@[i as int]));
                    assert(decreases_to!(o@[i as int] => o@[i as int].1));
                }
                push_json_text(&o[i].1, out);
                proof {
                    assert(o@.take(i + 1).drop_last() =~= o@.take(i as int));
                    assert(o@.take(i + 1).last() == o@[i as int]);
                    assert(spec_member_text(o@[i as int]) == seq!['"'] + spec_escape(
                        o@[i as int].0@,
                    ) + seq!['"', ':'] + spec_json_text(o@[i as int].1));
                    assert(out@ =~= old(out)@ + seq!['{'] + spec_members_text(o@.take(i + 1)));
                }
                i = i + 1;
            }
            out.push('}');
            proof {
                assert(o@.take(n as int) =~= o@);
                assert(out@ =~= old(out)@ + spec_json_text(*v));
            }
        },
    }
}

/// The serialized text of `v`, with no added whitespace.
pub fn json_to_string(v: &JsonValue) -> (s: String)
    ensures
        s@ == spec_json_text(*v),
{
    let mut out: Vec<char> = Vec::new();
    push_json_text(v, &mut out);
    chars_to_string(&out)
}

/// Characters that a JSON string literal holds verbatim: no quote,
/// no backslash, no control character.
pub open spec fn plain_str_chars(q: Seq<char>) -> bool {
    forall|j: int|
        0 <= j < q.len() ==> ((#[trigger] q[j]) != '"' && q[j] != '\\' && (q[j] as int) >= 32)
}

/// `c` is JSON whitespace.
pub open spec fn is_json_ws(c: char) -> bool {
    c == ' ' || c == '\t' || c == '\n' || c == '\r'
}

/// Relies on `char::from_u32`: `Some` exactly for a Unicode scalar
/// value (not a surrogate, at most 0x10FFFF), holding the character
/// with that code point.
#[verifier::external_body]
fn char_from_u32(n: u32) -> (r: Option<char>)
    ensures
        r is Some <==> (n < 0xD800 || (0xE000 <= n && n <= 0x10FFFF)),
        r matches Some(c) ==> c as u32 == n,
{
    char::from_u32(n)
}

/// The first position at or after `pos` that does not hold JSON
/// whitespace.
fn skip_ws(s: &Vec<char>, pos: usize) -> (p: usize)
    requires
        pos <= s@.len(),
    ensures
        pos <= p <= s@.len(),
        pos < s@.len() && !is_json_ws(s@[pos as int]) ==> p == pos,
{
    let n = s.len();
    let mut i = pos;
    while i < n && (s[i] == ' ' || s[i] == '\t' || s[i] == '\n' || s[i] == '\r')
        invariant
            pos <= i <= n,
            n == s@.len(),
            pos < s@.len() && !is_json_ws(s@[pos as int]) ==> i == pos,
        decreases n - i,
    {
        i = i + 1;
    }
    i
}

/// The value of a hexadecimal digit character, if it is one.
fn hex_val(c: char) -> (r: Option<u32>)
    ensures
        r matches Some(d) ==> d < 16,
{
    let u = c as u32;
    if u >= 48 && u <= 57 {
        Some(u - 48)
    } else if u >= 97 && u <= 102 {
        Some(u - 97 + 10)
    } else if u >= 65 && u <= 70 {
        Some(u - 65 + 10)
    } else {
        None
    }
}

/// Read the four hex digits of a `\u` escape starting at `pos`.
fn parse_hex4(s: &Vec<char>, pos: usize) -> (r: Option<u32>)
    requires
        pos + 4 <= s@.len(),
    ensures
        r matches Some(u) ==> u < 0x10000,
{
    let n = s.len();
    assert(pos + 4 <= n);
    let d0 = hex_val(s[pos]);
    let d1 = hex_val(s[pos + 1]);
    let d2 = hex_val(s[pos + 2]);
    let d3 = hex_val(s[pos + 3]);
    match (d0, d1, d2, d3) {
        (Some(a), Some(b), Some(c), Some(d)) => Some(((a * 16 + b) * 16 + c) * 16 + d),
        _ => None,
    }
}

/// Parse the string literal that starts with the quote at `pos`;
/// return its contents and the position after the closing quote.
/// A literal of verbatim characters closed by the final character
/// of the input is returned exactly.
#[verifier::loop_isolation(false)]
fn parse_string(s: &Vec<char>, pos: usize) -> (r: Result<(String, usize), JsonError>)
    requires
        pos < s@.len(),
    ensures
        r matches Ok(t) ==> pos < t.1 <= s@.len(),
        (s@.len() - pos >= 2 && s@[pos as int] == '"' && s@[s@.len() - 1] == '"'
            && plain_str_chars(s@.subrange(pos + 1, s@.len() - 1))) ==> (r matches Ok(t) && t.0@
            == s@.subrange(pos + 1, s@.len() - 1) && t.1 == s@.len()),
{
    let ghost hp = s@.len() - pos >= 2 && s@[pos as int] == '"' && s@[s@.len() - 1] == '"'
        && plain_str_chars(s@.subrange(pos + 1, s@.len() - 1));
    let n = s.len();
    let mut i = pos + 1;
    let mut buf: Vec<char> = Vec::new();
    proof {
        assert(s@.subrange(pos + 1, (pos + 1) as int) =~= Seq::<char>::empty());
    }
    while i < n
        invariant
            pos < i,
            i <= n,
            n == s@.len(),
            hp ==> (i <= n - 1 && buf@ == s@.subrange(pos + 1, i as int)),
        decreases n - i,
    {
        proof {
            if hp && i < n - 1 {
                assert(s@.subrange(pos + 1, s@.len() - 1)[i - pos - 1] == s@[i as int]);
            }
        }
        let c = s[i];
        if c == '"' {
            proof {
                if hp {
                    assert(i == n - 1);
                    assert(buf@ == s@.subrange(pos + 1, s@.len() - 1));
                }
            }
            return Ok((chars_to_string(&buf), i + 1));
        } else if c == '\\' {
            if n - i < 2 {
                return Err(JsonError { pos: i, kind: JsonErrorKind::BadEscape });
            }
            let e = s[i + 1];
            if e == '"' || e == '\\' || e == '/' {
                buf.push(e);
                i = i + 2;
            } else if e == 'b' {
                buf.push('\u{8}');
                i = i + 2;
            } else if e == 'f' {
                buf.push('\u{c}');
                i = i + 2;
            } else if e == 'n' {
                buf.push('\n');
                i = i + 2;
            } else if e == 'r' {
                buf.push('\r');
                i = i + 2;
            } else if e == 't' {
                buf.push('\t');
                i = i + 2;
            } else if e == 'u' {
                if n - i < 6 {
                    return Err(JsonError { pos: i, kind: JsonErrorKind::BadEscape });
                }
                let u1 = match parse_hex4(s, i + 2) {
                    Some(u) => u,
                    None => {
                        return Err(JsonError { pos: i, kind: JsonErrorKind::BadEscape });
                    },
                };
                if u1 >= 0xD800 && u1 < 0xDC00 {
                    // A high surrogate must pair with a following
                    // low surrogate escape.
                    if n - i < 12 || s[i + 6] != '\\' || s[i + 7] != 'u' {
                        return Err(JsonError { pos: i, kind: JsonErrorKind::BadEscape });
                    }
                    let u2 = match parse_hex4(s, i + 8) {
                        Some(u) => u,
                        None => {
                            return Err(JsonError { pos: i, kind: JsonErrorKind::BadEscape });
                        },
                    };
                    if !(u2 >= 0xDC00 && u2 < 0xE000) {
                        return Err(JsonError { pos: i, kind: JsonErrorKind::BadEscape });
                    }
                    let code = 0x10000 + (u1 - 0xD800) * 0x400 + (u2 - 0xDC00);
                    match char_from_u32(code) {
                        Some(ch) => {
                            buf.push(ch);
                        },
                        None => {
                            return Err(JsonError { pos: i, kind: JsonErrorKind::BadEscape });
                        },
                    }
                    i = i + 12;
                } else if u1 >= 0xDC00 && u1 < 0xE000 {
                    return Err(JsonError { pos: i, kind: JsonErrorKind::BadEscape });
                } else {
                    match char_from_u32(u1) {
                        Some(ch) => {
                            buf.push(ch);
                        },
                        None => {
                            return Err(JsonError { pos: i, kind: JsonErrorKind::BadEscape });
                        },
                    }
                    i = i + 6;
                }
            } else {
                return Err(JsonError { pos: i, kind: JsonErrorKind::BadEscape });
            }
        } else {
            buf.push(c);
            proof {
                if hp {
                    assert(buf@ =~= s@.subrange(pos + 1, i + 1));
                }
            }
            i = i + 1;
        }
    }
    Err(JsonError { pos: n, kind: JsonErrorKind::UnterminatedString })
}

/// Scan the run of decimal digits that starts at `pos`: where it
/// ends, and its value when that fits in a `u64`.
#[verifier::loop_isolation(false)]
fn scan_digits(s: &Vec<char>, pos: usize) -> (r: (Option<u64>, usize))
    requires
        pos <= s@.len(),
    ensures
        pos <= r.1 <= s@.len(),
        all_digits(s@.subrange(pos as int, r.1 as int)),
        r.1 < s@.len() ==> !is_digit_char(s@[r.1 as int]),
        r.0 matches Some(m) ==> digits_val(s@.subrange(pos as int, r.1 as int)) == m,
        r.0 is None ==> digits_val(s@.subrange(pos as int, r.1 as int)) > u64::MAX,
{
    let n = s.len();
    let mut i = pos;
    let mut mag: u64 = 0;
    let mut overflow = false;
    proof {
        assert(s@.subrange(pos as int, pos as int) =~= Seq::<char>::empty());
    }
    while i < n && s[i] >= '0' && s[i] <= '9'
        invariant
            pos <= i <= n,
            all_digits(s@.subrange(pos as int, i as int)),
            !overflow ==> mag == digits_val(s@.subrange(pos as int, i as int)),
            overflow ==> digits_val(s@.subrange(pos as int, i as int)) > u64::MAX,
        decreases n - i,
    {
        let c = s[i];
        let d = ((c as u32) - 48) as u64;
        proof {
            assert(is_digit_char(c) && digit_val(c) == d);
            assert(s@.subrange(pos as int, i + 1).drop_last() =~= s@.subrange(
                pos as int,
                i as int,
            ));
            assert(s@.subrange(pos as int, i + 1).last() == s@[i as int]);
        }
        if overflow {
            proof {
                let prev = digits_val(s@.subrange(pos as int, i as int));
                assert(prev * 10 + d > u64::MAX) by (nonlinear_arith)
                    requires
                        prev > u64::MAX,
                        d >= 0,
                ;
            }
        } else if mag > (u64::MAX - d) / 10 {
            proof {
                assert(mag * 10 + d > u64::MAX) by (nonlinear_arith)
                    requires
                        mag > (u64::MAX - d) / 10,
                        d <= 9,
                        mag >= 0,
                ;
            }
            overflow = true;
        } else {
            proof {
                assert(mag * 10 + d <= u64::MAX) by (nonlinear_arith)
                    requires
                        mag <= (u64::MAX - d) / 10,
                        0 <= d <= 9,
                        mag >= 0,
                ;
            }
            mag = mag * 10 + d;
        }
        i = i + 1;
    }
    if overflow {
        (None, i)
    } else {
        (Some(mag), i)
    }
}

/// Parse the number that starts at `pos`; return the value and the
/// position after its last character. On the canonical decimal text
/// of an integer the exact value is returned; any other number
/// shape keeps its raw text.
#[verifier::loop_isolation(false)]
fn parse_number(s: &Vec<char>, pos: usize) -> (r: Result<(JsonValue, usize), JsonError>)
    requires
        pos < s@.len(),
    ensures
        r matches Ok(t) ==> pos < t.1 <= s@.len() && wf_json(t.0),
        spec_parse_u64_digits(s@.skip(pos as int)) matches Some(nv) ==> (s@.skip(pos as int)
            == spec_digits(nv as int) ==> (r matches Ok(t) && t.0 == JsonValue::UInt(nv) && t.1
            == s@.len())),
        spec_parse_i64(s@.skip(pos as int)) matches Some(mv) ==> ((mv < 0 && s@.skip(pos as int)
            == spec_signed_digits(mv as int)) ==> (r matches Ok(t) && t.0 == JsonValue::Int(mv)
            && t.1 == s@.len())),
{
    let ghost tail = s@.skip(pos as int);
    let ghost hu = spec_parse_u64_digits(tail) is Some && tail == spec_digits(
        spec_parse_u64_digits(tail)->0 as int,
    );
    let ghost hneg = spec_parse_i64(tail) is Some && spec_parse_i64(tail)->0 < 0 && tail
        == spec_signed_digits(spec_parse_i64(tail)->0 as int);
    let n = s.len();
    let neg = s[pos] == '-';
    let start = if neg {
        pos + 1
    } else {
        pos
    };
    proof {
        if hu {
            let nv = spec_parse_u64_digits(tail)->0;
            lemma_spec_digits_all_digits(nv as int);
            lemma_digits_val_of_spec_digits(nv as int);
            if nv >= 1 {
                lemma_spec_digits_no_leading_zero(nv as int);
            }
            assert(s@[pos as int] == tail[0]);
            assert(is_digit_char(tail[0]));
            assert(!neg);
            assert(s@.subrange(pos as int, n as int) =~= tail);
            assert forall|k: int| pos <= k < n implies is_digit_char(#[trigger] s@[k]) by {
                assert(s@[k] == tail[k - pos]);
            }
        }
        if hneg {
            let mv = spec_parse_i64(tail)->0;
            let g = -(mv as int);
            lemma_spec_digits_all_digits(g);
            lemma_digits_val_of_spec_digits(g);
            lemma_spec_digits_no_leading_zero(g);
            assert(spec_signed_digits(mv as int) == seq!['-'] + spec_digits(g));
            assert(s@[pos as int] == tail[0]);
            assert(tail[0] == (seq!['-'] + spec_digits(g))[0]);
            assert(tail[0] == '-');
            assert(neg);
            assert(tail.len() == 1 + spec_digits(g).len());
            assert forall|j: int|
                0 <= j < n - pos - 1 implies s@.subrange(pos + 1, n as int)[j] == spec_digits(
                g,
            )[j] by {
                assert(s@.subrange(pos + 1, n as int)[j] == s@[pos + 1 + j]);
                assert(s@[pos + 1 + j] == tail[1 + j]);
                assert(tail[1 + j] == (seq!['-'] + spec_digits(g))[1 + j]);
            }
            assert(s@.subrange(pos + 1, n as int) =~= spec_digits(g));
            assert forall|k: int| pos + 1 <= k < n implies is_digit_char(
                #[trigger] s@[k],
            ) by {
                assert(s@[k] == tail[k - pos]);
                assert(tail[k - pos] == spec_digits(g)[k - pos - 1]);
            }
        }
    }
    let sd = scan_digits(s, start);
    let iend = sd.1;
    proof {
        if hu || hneg {
            // The digit run reaches the end of the input.
            assert(start < n);
            assert(iend == n);
        }
    }
    if iend == start {
        return Err(JsonError { pos: start, kind: JsonErrorKind::BadNumber });
    }
    // A run of several digits must not start with a zero.
    if s[start] == '0' && iend > start + 1 {
        return Err(JsonError { pos: start + 1, kind: JsonErrorKind::BadNumber });
    }
    let mut i = iend;
    let mut nonint = false;
    if i < n && s[i] == '.' {
        nonint = true;
        let f = scan_digits(s, i + 1);
        if f.1 == i + 1 {
            return Err(JsonError { pos: i + 1, kind: JsonErrorKind::BadNumber });
        }
        i = f.1;
    }
    if i < n && (s[i] == 'e' || s[i] == 'E') {
        nonint = true;
        let mut j = i + 1;
        if j < n && (s[j] == '+' || s[j] == '-') {
            j = j + 1;
        }
        let g = scan_digits(s, j);
        if g.1 == j {
            return Err(JsonError { pos: j, kind: JsonErrorKind::BadNumber });
        }
        i = g.1;
    }
    if nonint {
        return Ok((JsonValue::NonInt(chars_range_to_string(s, pos, i)), i));
    }
    proof {
        if hu {
            let nv = spec_parse_u64_digits(tail)->0;
            assert(s@.subrange(start as int, iend as int) =~= spec_digits(nv as int));
            assert(digits_val(s@.subrange(start as int, iend as int)) == nv);
        }
        if hneg {
            let mv = spec_parse_i64(tail)->0;
            let g = -(mv as int);
            assert(s@.subrange(start as int, iend as int) =~= spec_digits(g));
            assert(digits_val(s@.subrange(start as int, iend as int)) == g);
        }
    }
    match sd.0 {
        None => Ok((JsonValue::NonInt(chars_range_to_string(s, pos, iend)), iend)),
        Some(mag) => {
            if neg {
                if mag == 0 {
                    Ok((JsonValue::UInt(0), iend))
                } else if mag > 0x8000_0000_0000_0000u64 {
                    Ok((JsonValue::NonInt(chars_range_to_string(s, pos, iend)), iend))
                } else if mag == 0x8000_0000_0000_0000u64 {
                    Ok((JsonValue::Int(i64::MIN), iend))
                } else {
                    Ok((JsonValue::Int(-(mag as i64)), iend))
                }
            } else {
                Ok((JsonValue::UInt(mag), iend))
            }
        },
    }
}

/// Parse the value that starts at `pos`; return it and the position
/// after its last character. On the canonical text of a literal or
/// of an integer, with nothing following it, the exact value is
/// returned.
#[verifier::loop_isolation(false)]
fn parse_value(s: &Vec<char>, pos: usize) -> (r: Result<(JsonValue, usize), JsonError>)
    requires
        pos <= s@.len(),
    ensures
        r matches Ok(t) ==> pos < t.1 <= s@.len() && wf_json(t.0),
        s@.skip(pos as int) == "null"@ ==> (r matches Ok(t) && t.0 == JsonValue::Null && t.1
            == s@.len()),
        s@.skip(pos as int) == "true"@ ==> (r matches Ok(t) && t.0 == JsonValue::Bool(true) && t.1
            == s@.len()),
        s@.skip(pos as int) == "false"@ ==> (r matches Ok(t) && t.0 == JsonValue::Bool(false)
            && t.1 == s@.len()),
        spec_parse_u64_digits(s@.skip(pos as int)) matches Some(nv) ==> (s@.skip(pos as int)
            == spec_digits(nv as int) ==> (r matches Ok(t) && t.0 == JsonValue::UInt(nv) && t.1
            == s@.len())),
        spec_parse_i64(s@.skip(pos as int)) matches Some(mv) ==> ((mv < 0 && s@.skip(pos as int)
            == spec_signed_digits(mv as int)) ==> (r matches Ok(t) && t.0 == JsonValue::Int(mv)
            && t.1 == s@.len())),
        (s@.len() - pos >= 2 && s@[pos as int] == '"' && s@[s@.len() - 1] == '"'
            && plain_str_chars(s@.subrange(pos + 1, s@.len() - 1))) ==> (r matches Ok(t) && t.0
            matches JsonValue::Str(st) && st@ == s@.subrange(pos + 1, s@.len() - 1) && t.1
            == s@.len()),
        s@.skip(pos as int) == "[]"@ ==> (r matches Ok(t) && t.0 matches JsonValue::Array(a)
            && a@.len() == 0 && t.1 == s@.len()),
        s@.skip(pos as int) == "{}"@ ==> (r matches Ok(t) && t.0 matches JsonValue::Object(o)
            && o@.len() == 0 && t.1 == s@.len()),
        pos == s@.len() ==> r == Err::<(JsonValue, usize), JsonError>(
            JsonError { pos, kind: JsonErrorKind::ExpectedValue },
        ),
    decreases s@.len() - pos,
{
    let n = s.len();
    proof {
        reveal_strlit("null");
        reveal_strlit("true");
        reveal_strlit("false");
        reveal_strlit("[]");
        reveal_strlit("{}");
        assert("null"@.len() == 4);
        assert("true"@.len() == 4);
        assert("false"@.len() == 5);
        assert("[]"@.len() == 2);
        assert("{}"@.len() == 2);
        let tail = s@.skip(pos as int);
        if tail == "[]"@ {
            assert(tail[0] == '[' && tail[1] == ']');
            assert(s@[pos as int] == tail[0] && s@[pos + 1] == tail[1]);
            assert(s@.len() - pos == 2);
            assert(!is_json_ws(s@[pos + 1]));
        }
        if tail == "{}"@ {
            assert(tail[0] == '{' && tail[1] == '}');
            assert(s@[pos as int] == tail[0] && s@[pos + 1] == tail[1]);
            assert(s@.len() - pos == 2);
            assert(!is_json_ws(s@[pos + 1]));
        }
        if tail == "null"@ {
            assert(tail[0] == 'n' && tail[1] == 'u' && tail[2] == 'l' && tail[3] == 'l');
            assert(s@[pos as int] == tail[0] && s@[pos + 1] == tail[1] && s@[pos + 2] == tail[2]
                && s@[pos + 3] == tail[3]);
            assert(s@.len() - pos == 4);
        }
        if tail == "true"@ {
            assert(tail[0] == 't' && tail[1] == 'r' && tail[2] == 'u' && tail[3] == 'e');
            assert(s@[pos as int] == tail[0] && s@[pos + 1] == tail[1] && s@[pos + 2] == tail[2]
                && s@[pos + 3] == tail[3]);
            assert(s@.len() - pos == 4);
        }
        if tail == "false"@ {
            assert(tail[0] == 'f' && tail[1] == 'a' && tail[2] == 'l' && tail[3] == 's' && tail[4]
                == 'e');
            assert(s@[pos as int] == tail[0] && s@[pos + 1] == tail[1] && s@[pos + 2] == tail[2]
                && s@[pos + 3] == tail[3] && s@[pos + 4] == tail[4]);
            assert(s@.len() - pos == 5);
        }
        if spec_parse_u64_digits(tail) is Some && tail == spec_digits(
            spec_parse_u64_digits(tail)->0 as int,
        ) {
            lemma_spec_digits_all_digits(spec_parse_u64_digits(tail)->0 as int);
            assert(s@[pos as int] == tail[0]);
            assert(is_digit_char(s@[pos as int]));
        }
        if spec_parse_i64(tail) is Some && spec_parse_i64(tail)->0 < 0 && tail
            == spec_signed_digits(spec_parse_i64(tail)->0 as int) {
            let g = -(spec_parse_i64(tail)->0 as int);
            assert(spec_signed_digits(spec_parse_i64(tail)->0 as int) == seq!['-'] + spec_digits(
                g,
            ));
            assert(tail[0] == (seq!['-'] + spec_digits(g))[0]);
            assert(s@[pos as int] == tail[0]);
            assert(s@[pos as int] == '-');
        }
    }
    if pos >= n {
        return Err(JsonError { pos, kind: JsonErrorKind::ExpectedValue });
    }
    let c = s[pos];
    if c == 'n' {
        if n - pos >= 4 && s[pos + 1] == 'u' && s[pos + 2] == 'l' && s[pos + 3] == 'l' {
            Ok((JsonValue::Null, pos + 4))
        } else {
            Err(JsonError { pos, kind: JsonErrorKind::BadLiteral })
        }
    } else if c == 't' {
        if n - pos >= 4 && s[pos + 1] == 'r' && s[pos + 2] == 'u' && s[pos + 3] == 'e' {
            Ok((JsonValue::Bool(true), pos + 4))
        } else {
            Err(JsonError { pos, kind: JsonErrorKind::BadLiteral })
        }
    } else if c == 'f' {
        if n - pos >= 5 && s[pos + 1] == 'a' && s[pos + 2] == 'l' && s[pos + 3] == 's' && s[pos + 4]
            == 'e' {
            Ok((JsonValue::Bool(false), pos + 5))
        } else {
            Err(JsonError { pos, kind: JsonErrorKind::BadLiteral })
        }
    } else if c == '"' {
        match parse_string(s, pos) {
            Ok((st, p)) => Ok((JsonValue::Str(st), p)),
            Err(e) => Err(e),
        }
    } else if c == '-' || ((c as u32) >= 48 && (c as u32) <= 57) {
        parse_number(s, pos)
    } else if c == '[' {
        let mut items: Vec<JsonValue> = Vec::new();
        let mut p = skip_ws(s, pos + 1);
        if p < n && s[p] == ']' {
            return Ok((JsonValue::Array(items), p + 1));
        }
        loop
            invariant
                pos < p <= n,
                forall|j: int| 0 <= j < items@.len() ==> wf_json(#[trigger] items@[j]),
            decreases n - p,
        {
            let (v, p2) = match parse_value(s, p) {
                Ok(t) => t,
                Err(e) => {
                    return Err(e);
                },
            };
            items.push(v);
            let p3 = skip_ws(s, p2);
            if p3 >= n {
                return Err(JsonError { pos: p3, kind: JsonErrorKind::BadStructure });
            }
            if s[p3] == ']' {
                return Ok((JsonValue::Array(items), p3 + 1));
            }
            if s[p3] != ',' {
                return Err(JsonError { pos: p3, kind: JsonErrorKind::BadStructure });
            }
            p = skip_ws(s, p3 + 1);
        }
    } else if c == '{' {
        let mut members: Vec<(String, JsonValue)> = Vec::new();
        let mut p = skip_ws(s, pos + 1);
        if p < n && s[p] == '}' {
            return Ok((JsonValue::Object(members), p + 1));
        }
        loop
            invariant
                pos < p <= n,
                forall|j: int| 0 <= j < members@.len() ==> wf_json(#[trigger] members@[j].1),
            decreases n - p,
        {
            if p >= n || s[p] != '"' {
                return Err(JsonError { pos: p, kind: JsonErrorKind::BadStructure });
            }
            let (key, p2) = match parse_string(s, p) {
                Ok(t) => t,
                Err(e) => {
                    return Err(e);
                },
            };
            let p3 = skip_ws(s, p2);
            if p3 >= n || s[p3] != ':' {
                return Err(JsonError { pos: p3, kind: JsonErrorKind::BadStructure });
            }
            let p4 = skip_ws(s, p3 + 1);
            let (v, p5) = match parse_value(s, p4) {
                Ok(t) => t,
                Err(e) => {
                    return Err(e);
                },
            };
            members.push((key, v));
            let p6 = skip_ws(s, p5);
            if p6 >= n {
                return Err(JsonError { pos: p6, kind: JsonErrorKind::BadStructure });
            }
            if s[p6] == '}' {
                return Ok((JsonValue::Object(members), p6 + 1));
            }
            if s[p6] != ',' {
                return Err(JsonError { pos: p6, kind: JsonErrorKind::BadStructure });
            }
            p = skip_ws(s, p6 + 1);
        }
    } else {
        Err(JsonError { pos, kind: JsonErrorKind::ExpectedValue })
    }
}

/// Parse a whole JSON document given as characters. Whatever the
/// input, a returned value is well-formed; on the canonical text of
/// a literal or of an integer, the exact value is returned.
#[verifier::loop_isolation(false)]
pub fn parse_json_chars(s: &Vec<char>) -> (r: Result<JsonValue, JsonError>)
    ensures
        r matches Ok(v) ==> wf_json(v),
        s@ == "null"@ ==> r == Ok::<JsonValue, JsonError>(JsonValue::Null),
        s@ == "true"@ ==> r == Ok::<JsonValue, JsonError>(JsonValue::Bool(true)),
        s@ == "false"@ ==> r == Ok::<JsonValue, JsonError>(JsonValue::Bool(false)),
        spec_parse_u64_digits(s@) matches Some(nv) ==> (s@ == spec_digits(nv as int) ==> r == Ok::<
            JsonValue,
            JsonError,
        >(JsonValue::UInt(nv))),
        spec_parse_i64(s@) matches Some(mv) ==> ((mv < 0 && s@ == spec_signed_digits(mv as int))
            ==> r == Ok::<JsonValue, JsonError>(JsonValue::Int(mv))),
        (s@.len() >= 2 && s@[0] == '"' && s@[s@.len() - 1] == '"' && plain_str_chars(
            s@.subrange(1, s@.len() - 1),
        )) ==> (r matches Ok(v) && v matches JsonValue::Str(st) && st@ == s@.subrange(
            1,
            s@.len() - 1,
        )),
        s@ == "[]"@ ==> (r matches Ok(v) && v matches JsonValue::Array(a) && a@.len() == 0),
        s@ == "{}"@ ==> (r matches Ok(v) && v matches JsonValue::Object(o) && o@.len() == 0),
        s@.len() == 0 ==> r == Err::<JsonValue, JsonError>(
            JsonError { pos: 0, kind: JsonErrorKind::ExpectedValue },
        ),
{
    proof {
        reveal_strlit("null");
        reveal_strlit("true");
        reveal_strlit("false");
        assert("null"@.len() == 4);
        assert("true"@.len() == 4);
        assert("false"@.len() == 5);
        assert(s@.skip(0) =~= s@);
        if s@ == "null"@ || s@ == "true"@ || s@ == "false"@ {
            assert(!is_json_ws(s@[0]));
        }
        if s@.len() >= 2 && s@[0] == '"' {
            assert(!is_json_ws(s@[0]));
        }
        reveal_strlit("[]");
        reveal_strlit("{}");
        assert("[]"@.len() == 2);
        assert("{}"@.len() == 2);
        if s@ == "[]"@ || s@ == "{}"@ {
            assert(!is_json_ws(s@[0]));
        }
        if spec_parse_u64_digits(s@) is Some && s@ == spec_digits(
            spec_parse_u64_digits(s@)->0 as int,
        ) {
            lemma_spec_digits_all_digits(spec_parse_u64_digits(s@)->0 as int);
            assert(is_digit_char(s@[0]) && !is_json_ws(s@[0]));
        }
        if spec_parse_i64(s@) is Some && spec_parse_i64(s@)->0 < 0 && s@ == spec_signed_digits(
            spec_parse_i64(s@)->0 as int,
        ) {
            let g = -(spec_parse_i64(s@)->0 as int);
            assert(spec_signed_digits(spec_parse_i64(s@)->0 as int) == seq!['-'] + spec_digits(g));
            assert(s@[0] == '-' && !is_json_ws(s@[0]));
        }
    }
    let p = skip_ws(s, 0);
    let (v, p2) = match parse_value(s, p) {
        Ok(t) => t,
        Err(e) => {
            return Err(e);
        },
    };
    let p3 = skip_ws(s, p2);
    if p3 < s.len() {
        return Err(JsonError { pos: p3, kind: JsonErrorKind::TrailingData });
    }
    Ok(v)
}

/// Parse a whole JSON document. Whatever the input, a returned
/// value is well-formed; on the canonical text of a literal or of
/// an integer, the exact value is returned.
pub fn parse_json(s: &str) -> (r: Result<JsonValue, JsonError>)
    ensures
        r matches Ok(v) ==> wf_json(v),
        s@ == "null"@ ==> r == Ok::<JsonValue, JsonError>(JsonValue::Null),
        s@ == "true"@ ==> r == Ok::<JsonValue, JsonError>(JsonValue::Bool(true)),
        s@ == "false"@ ==> r == Ok::<JsonValue, JsonError>(JsonValue::Bool(false)),
        spec_parse_u64_digits(s@) matches Some(nv) ==> (s@ == spec_digits(nv as int) ==> r == Ok::<
            JsonValue,
            JsonError,
        >(JsonValue::UInt(nv))),
        spec_parse_i64(s@) matches Some(mv) ==> ((mv < 0 && s@ == spec_signed_digits(mv as int))
            ==> r == Ok::<JsonValue, JsonError>(JsonValue::Int(mv))),
        (s@.len() >= 2 && s@[0] == '"' && s@[s@.len() - 1] == '"' && plain_str_chars(
            s@.subrange(1, s@.len() - 1),
        )) ==> (r matches Ok(v) && v matches JsonValue::Str(st) && st@ == s@.subrange(
            1,
            s@.len() - 1,
        )),
        s@ == "[]"@ ==> (r matches Ok(v) && v matches JsonValue::Array(a) && a@.len() == 0),
        s@ == "{}"@ ==> (r matches Ok(v) && v matches JsonValue::Object(o) && o@.len() == 0),
        s@.len() == 0 ==> r == Err::<JsonValue, JsonError>(
            JsonError { pos: 0, kind: JsonErrorKind::ExpectedValue },
        ),
{
    let chars = crate::text::str_to_chars(s);
    parse_json_chars(&chars)
}

/// The value bound to key `k` in the member list `o`, later bindings
/// shadowing earlier ones.
pub open spec fn spec_obj_get(o: Seq<(String, JsonValue)>, k: Seq<char>) -> Option<JsonValue>
    decreases o.len(),
{
    if o.len() == 0 {
        None
    } else if o.last().0@ == k {
        Some(o.last().1)
    } else {
        spec_obj_get(o.drop_last(), k)
    }
}

/// Take the value bound to key `k` out of the member list `o`,
/// later bindings shadowing earlier ones.
#[verifier::loop_isolation(false)]
pub fn take_field(o: Vec<(String, JsonValue)>, k: &str) -> (r: Option<JsonValue>)
    ensures
        r == spec_obj_get(o@, k@),
{
    let ghost orig = o@;
    let mut o = o;
    while o.len() > 0
        invariant
            spec_obj_get(orig, k@) == spec_obj_get(o@, k@),
        decreases o@.len(),
    {
        let ghost pre = o@;
        let m = match o.pop() {
            Some(m) => m,
            None => {
                return None;
            },
        };
        proof {
            assert(m == pre.last());
            assert(o@ =~= pre.drop_last());
        }
        if str_eq(m.0.as_str(), k) {
            return Some(m.1);
        }
    }
    None
}

/// Look key `k` up among the members `o`.
pub fn obj_get<'a>(o: &'a Vec<(String, JsonValue)>, k: &str) -> (r: Option<&'a JsonValue>)
    ensures
        match r {
            Some(v) => spec_obj_get(o@, k@) == Some(*v),
            None => spec_obj_get(o@, k@) is None,
        },
{
    let mut i: usize = o.len();
    proof {
        assert(o@.take(o@.len() as int) =~= o@);
    }
    while i > 0
        invariant
            i <= o@.len(),
            spec_obj_get(o@, k@) == spec_obj_get(o@.take(i as int), k@),
        decreases i,
    {
        i = i - 1;
        let hit = str_eq(o[i].0.as_str(), k);
        proof {
            assert(o@.take(i + 1).last() == o@[i as int]);
            assert(o@.take(i + 1).drop_last() =~= o@.take(i as int));
        }
        if hit {
            return Some(&o[i].1);
        }
    }
    proof {
        assert(o@.take(0) =~= Seq::<(String, JsonValue)>::empty());
    }
    None
}

} // verus!
