//! Decimal text: parsing and formatting of integers, exactly as the
//! server's stringified numeric fields need them.

use vstd::prelude::*;

verus! {

/// `c` is an ASCII decimal digit.
pub open spec fn is_digit_char(c: char) -> bool {
    '0' as int <= c as int && c as int <= '9' as int
}

/// The numeric value of a digit character.
pub open spec fn digit_val(c: char) -> int {
    c as int - '0' as int
}

/// Every character of `s` is an ASCII decimal digit.
pub open spec fn all_digits(s: Seq<char>) -> bool {
    forall|i: int| 0 <= i < s.len() ==> is_digit_char(s[i])
}

/// The value of a digit string read in base 10, most significant first.
pub open spec fn digits_val(s: Seq<char>) -> int
    decreases s.len(),
{
    if s.len() == 0 {
        0
    } else {
        digits_val(s.drop_last()) * 10 + digit_val(s.last())
    }
}

/// What `str::parse::<u64>` accepts after an optional `+` sign:
/// a non-empty, all-digit string whose value fits.
pub open spec fn spec_parse_u64_digits(s: Seq<char>) -> Option<u64> {
    if s.len() > 0 && all_digits(s) && digits_val(s) <= u64::MAX {
        Some(digits_val(s) as u64)
    } else {
        None
    }
}

/// The value `str::parse::<u64>` would return on `s`, if any.
pub open spec fn spec_parse_u64(s: Seq<char>) -> Option<u64> {
    if s.len() >= 1 && s[0] == '+' {
        spec_parse_u64_digits(s.skip(1))
    } else {
        spec_parse_u64_digits(s)
    }
}

/// The value `str::parse::<i64>` would return on `s`, if any.
pub open spec fn spec_parse_i64(s: Seq<char>) -> Option<i64> {
    if s.len() >= 1 && s[0] == '-' {
        let ds = s.skip(1);
        if ds.len() > 0 && all_digits(ds) && digits_val(ds) <= 0x8000_0000_0000_0000int {
            Some((-digits_val(ds)) as i64)
        } else {
            None
        }
    } else {
        let ds = if s.len() >= 1 && s[0] == '+' {
            s.skip(1)
        } else {
            s
        };
        if ds.len() > 0 && all_digits(ds) && digits_val(ds) <= i64::MAX {
            Some(digits_val(ds) as i64)
        } else {
            None
        }
    }
}

/// The character for digit value `d`.
pub open spec fn digit_char(d: int) -> char {
    if d == 0 {
        '0'
    } else if d == 1 {
        '1'
    } else if d == 2 {
        '2'
    } else if d == 3 {
        '3'
    } else if d == 4 {
        '4'
    } else if d == 5 {
        '5'
    } else if d == 6 {
        '6'
    } else if d == 7 {
        '7'
    } else if d == 8 {
        '8'
    } else {
        '9'
    }
}

/// The canonical decimal form of a non-negative integer: no sign, no
/// leading zeroes (except for zero itself).
pub open spec fn spec_digits(n: int) -> Seq<char>
    decreases n,
{
    if n < 10 {
        seq![digit_char(n)]
    } else {
        spec_digits(n / 10) + seq![digit_char(n % 10)]
    }
}

/// The canonical decimal form of a signed integer.
pub open spec fn spec_signed_digits(n: int) -> Seq<char> {
    if n >= 0 {
        spec_digits(n)
    } else {
        seq!['-'] + spec_digits(-n)
    }
}

proof fn lemma_digit_char_val(d: int)
    requires
        0 <= d < 10,
    ensures
        digit_val(digit_char(d)) == d,
        is_digit_char(digit_char(d)),
{
}

pub proof fn lemma_digits_val_nonneg(s: Seq<char>)
    requires
        all_digits(s),
    ensures
        digits_val(s) >= 0,
    decreases s.len(),
{
    if s.len() > 0 {
        lemma_digits_val_nonneg(s.drop_last());
    }
}

/// Extending a digit string to the right never lowers its value.
proof fn lemma_digits_val_mono(s: Seq<char>, i: int)
    requires
        all_digits(s),
        0 <= i <= s.len(),
    ensures
        digits_val(s) >= digits_val(s.take(i)),
    decreases s.len() - i,
{
    if i < s.len() {
        assert(s.take(i + 1).drop_last() =~= s.take(i));
        assert(forall|j: int| 0 <= j < i + 1 ==> is_digit_char(#[trigger] s.take(i + 1)[j]));
        lemma_digits_val_nonneg(s.take(i));
        assert(digits_val(s.take(i + 1)) >= digits_val(s.take(i)));
        lemma_digits_val_mono(s, i + 1);
    } else {
        assert(s.take(i) =~= s);
    }
}

/// Parse the all-digit tail of `s` starting at character `from`, as
/// `str::parse::<u64>` would.
fn parse_u64_digits_from(s: &str, from: usize) -> (r: Option<u64>)
    requires
        from <= s@.len(),
    ensures
        r == spec_parse_u64_digits(s@.skip(from as int)),
{
    let ghost ds = s@.skip(from as int);
    let n = s.unicode_len();
    if from >= n {
        assert(ds.len() == 0);
        return None;
    }
    let mut i: usize = from;
    let mut acc: u64 = 0;
    while i < n
        invariant
            from <= i <= n,
            n == s@.len(),
            ds == s@.skip(from as int),
            all_digits(ds.take(i - from)),
            acc == digits_val(ds.take(i - from)),
        decreases n - i,
    {
        let c = s.get_char(i);
        assert(c == ds[i - from]);
        let cu = c as u32;
        if cu < 48 || cu > 57 {
            assert(!is_digit_char(ds[i - from]));
            assert(!all_digits(ds));
            return None;
        }
        let d: u64 = (cu - 48) as u64;
        assert(is_digit_char(c) && digit_val(c) == d);
        if acc > (u64::MAX - d) / 10 {
            proof {
                assert(acc * 10 + d > u64::MAX) by (nonlinear_arith)
                    requires
                        acc > (u64::MAX - d) / 10,
                        d <= 9,
                        acc >= 0,
                ;
                assert(ds.take(i - from + 1).drop_last() =~= ds.take(i - from));
                assert(digits_val(ds.take(i - from + 1)) == acc * 10 + d);
                if all_digits(ds) {
                    lemma_digits_val_mono(ds, i - from + 1);
                    assert(digits_val(ds) > u64::MAX);
                }
            }
            return None;
        }
        proof {
            assert(acc * 10 + d <= u64::MAX) by (nonlinear_arith)
                requires
                    acc <= (u64::MAX - d) / 10,
                    0 <= d <= 9,
                    acc >= 0,
            ;
            assert(ds.take(i - from + 1).drop_last() =~= ds.take(i - from));
        }
        acc = acc * 10 + d;
        i = i + 1;
    }
    proof {
        assert(ds.take(i - from) =~= ds);
    }
    Some(acc)
}

/// The value of `s` read as `str::parse::<u64>` reads it.
pub fn parse_u64(s: &str) -> (r: Option<u64>)
    ensures
        r == spec_parse_u64(s@),
{
    let n = s.unicode_len();
    if n == 0 {
        return None;
    }
    let c0 = s.get_char(0);
    if c0 == '+' {
        parse_u64_digits_from(s, 1)
    } else {
        assert(s@.skip(0) =~= s@);
        parse_u64_digits_from(s, 0)
    }
}

/// The value of `s` read as `str::parse::<i64>` reads it.
pub fn parse_i64(s: &str) -> (r: Option<i64>)
    ensures
        r == spec_parse_i64(s@),
{
    let n = s.unicode_len();
    if n == 0 {
        assert(s@.skip(0) =~= s@);
        return None;
    }
    let c0 = s.get_char(0);
    if c0 == '-' {
        let ghost ds = s@.skip(1);
        let mag = parse_u64_digits_from(s, 1);
        match mag {
            None => None,
            Some(m) => {
                proof {
                    assert(ds.len() > 0 && all_digits(ds));
                    lemma_digits_val_nonneg(ds);
                    assert(digits_val(ds) == m);
                }
                if m > 0x8000_0000_0000_0000u64 {
                    None
                } else if m == 0x8000_0000_0000_0000u64 {
                    assert(((-digits_val(ds)) as i64) == i64::MIN);
                    Some(i64::MIN)
                } else {
                    assert(((-digits_val(ds)) as i64) == -(m as i64));
                    Some(-(m as i64))
                }
            },
        }
    } else if c0 == '+' {
        let ghost ds = s@.skip(1);
        let mag = parse_u64_digits_from(s, 1);
        match mag {
            None => None,
            Some(m) => {
                proof {
                    lemma_digits_val_nonneg(ds);
                    assert(digits_val(ds) == m);
                }
                if m > i64::MAX as u64 {
                    None
                } else {
                    Some(m as i64)
                }
            },
        }
    } else {
        assert(s@.skip(0) =~= s@);
        let ghost ds = s@;
        let mag = parse_u64_digits_from(s, 0);
        match mag {
            None => None,
            Some(m) => {
                proof {
                    lemma_digits_val_nonneg(ds);
                    assert(digits_val(ds) == m);
                }
                if m > i64::MAX as u64 {
                    None
                } else {
                    Some(m as i64)
                }
            },
        }
    }
}

fn digit_to_char(d: u64) -> (c: char)
    requires
        d < 10,
    ensures
        c == digit_char(d as int),
{
    if d == 0 {
        '0'
    } else if d == 1 {
        '1'
    } else if d == 2 {
        '2'
    } else if d == 3 {
        '3'
    } else if d == 4 {
        '4'
    } else if d == 5 {
        '5'
    } else if d == 6 {
        '6'
    } else if d == 7 {
        '7'
    } else if d == 8 {
        '8'
    } else {
        '9'
    }
}

/// Append the canonical decimal form of `n` to `out`.
pub fn push_u64_digits(n: u64, out: &mut Vec<char>)
    ensures
        final(out)@ == old(out)@ + spec_digits(n as int),
    decreases n,
{
    if n < 10 {
        let c = digit_to_char(n);
        out.push(c);
    } else {
        push_u64_digits(n / 10, out);
        let c = digit_to_char(n % 10);
        out.push(c);
    }
}

/// The canonical decimal characters of `n`.
pub fn u64_digits(n: u64) -> (r: Vec<char>)
    ensures
        r@ == spec_digits(n as int),
{
    let mut out: Vec<char> = Vec::new();
    push_u64_digits(n, &mut out);
    out
}

/// Append the canonical decimal form of the signed `n` to `out`.
pub fn push_i64_digits(n: i64, out: &mut Vec<char>)
    ensures
        final(out)@ == old(out)@ + spec_signed_digits(n as int),
{
    if n >= 0 {
        push_u64_digits(n as u64, out);
    } else {
        out.push('-');
        let mag: u64 = if n == i64::MIN {
            0x8000_0000_0000_0000u64
        } else {
            (-n) as u64
        };
        assert(mag == -(n as int));
        push_u64_digits(mag, out);
    }
}

/// Relies on std's `String: FromIterator<&char>`: collecting an
/// iterator over characters yields the string of exactly those
/// characters in order.
#[verifier::external_body]
pub fn chars_to_string(v: &Vec<char>) -> (s: String)
    ensures
        s@ == v@,
{
    v.iter().collect()
}

/// Relies on `<str as PartialEq>::eq`: two string slices are equal
/// exactly when they hold the same characters.
#[verifier::external_body]
pub fn str_eq(a: &str, b: &str) -> (r: bool)
    ensures
        r == (a@ == b@),
{
    a == b
}

/// Append the characters of `s` to `out`.
pub fn push_str_chars(out: &mut Vec<char>, s: &str)
    ensures
        final(out)@ == old(out)@ + s@,
{
    let n = s.unicode_len();
    let mut i: usize = 0;
    while i < n
        invariant
            i <= n,
            n == s@.len(),
            out@ == old(out)@ + s@.take(i as int),
        decreases n - i,
    {
        let c = s.get_char(i);
        out.push(c);
        proof {
            assert(old(out)@ + s@.take(i + 1) =~= (old(out)@ + s@.take(i as int)).push(s@[i as int]));
        }
        i = i + 1;
    }
    proof {
        assert(s@.take(n as int) =~= s@);
    }
}

/// The canonical decimal string of `n`.
pub fn u64_string(n: u64) -> (s: String)
    ensures
        s@ == spec_digits(n as int),
{
    let v = u64_digits(n);
    chars_to_string(&v)
}

/// The canonical decimal string of the signed `n`.
pub fn i64_string(n: i64) -> (s: String)
    ensures
        s@ == spec_signed_digits(n as int),
{
    let mut v: Vec<char> = Vec::new();
    push_i64_digits(n, &mut v);
    chars_to_string(&v)
}

/// The characters `s[a..b]` as a string.
pub fn chars_range_to_string(s: &Vec<char>, a: usize, b: usize) -> (r: String)
    requires
        a <= b <= s@.len(),
    ensures
        r@ == s@.subrange(a as int, b as int),
{
    let mut buf: Vec<char> = Vec::new();
    let mut i = a;
    while i < b
        invariant
            a <= i <= b <= s@.len(),
            buf@ == s@.subrange(a as int, i as int),
        decreases b - i,
    {
        buf.push(s[i]);
        proof {
            assert(s@.subrange(a as int, i + 1) =~= s@.subrange(a as int, i as int).push(
                s@[i as int],
            ));
        }
        i = i + 1;
    }
    chars_to_string(&buf)
}

/// The characters of `s`, in order.
pub fn str_to_chars(s: &str) -> (v: Vec<char>)
    ensures
        v@ == s@,
{
    let n = s.unicode_len();
    let mut v: Vec<char> = Vec::new();
    let mut i: usize = 0;
    while i < n
        invariant
            i <= n,
            n == s@.len(),
            v@ == s@.take(i as int),
        decreases n - i,
    {
        let c = s.get_char(i);
        v.push(c);
        proof {
            assert(v@ =~= s@.take(i + 1));
        }
        i = i + 1;
    }
    proof {
        assert(s@.take(n as int) =~= s@);
    }
    v
}

/// The canonical decimal form is made of digits only.
pub proof fn lemma_spec_digits_all_digits(n: int)
    requires
        n >= 0,
    ensures
        all_digits(spec_digits(n)),
        spec_digits(n).len() > 0,
    decreases n,
{
    if n < 10 {
        assert(is_digit_char(digit_char(n)));
    } else {
        lemma_spec_digits_all_digits(n / 10);
        assert(is_digit_char(digit_char(n % 10)));
        assert(forall|i: int|
            0 <= i < spec_digits(n).len() ==> is_digit_char(spec_digits(n)[i]));
    }
}

/// The canonical decimal form of a positive integer has no leading
/// zero.
pub proof fn lemma_spec_digits_no_leading_zero(n: int)
    requires
        n >= 1,
    ensures
        spec_digits(n)[0] != '0',
    decreases n,
{
    if n < 10 {
        assert(digit_char(n) != '0');
    } else {
        lemma_spec_digits_no_leading_zero(n / 10);
        assert(spec_digits(n)[0] == spec_digits(n / 10)[0]);
    }
}

/// Reading the canonical decimal form back gives the value itself.
pub proof fn lemma_digits_val_of_spec_digits(n: int)
    requires
        n >= 0,
    ensures
        digits_val(spec_digits(n)) == n,
    decreases n,
{
    if n < 10 {
        let s = spec_digits(n);
        assert(s == seq![digit_char(n)]);
        assert(s.drop_last() =~= Seq::<char>::empty());
        assert(digits_val(Seq::<char>::empty()) == 0);
        assert(digits_val(s) == digits_val(s.drop_last()) * 10 + digit_val(s.last()));
        lemma_digit_char_val(n);
    } else {
        lemma_digits_val_of_spec_digits(n / 10);
        let s = spec_digits(n);
        assert(s.drop_last() =~= spec_digits(n / 10));
        assert(s.last() == digit_char(n % 10));
        assert(digits_val(s) == digits_val(s.drop_last()) * 10 + digit_val(s.last()));
        lemma_digit_char_val(n % 10);
        vstd::arithmetic::div_mod::lemma_fundamental_div_mod(n, 10);
    }
}

/// Formatting a `u64` and parsing the result returns the same value:
/// the decimal codec is a round trip.
pub proof fn lemma_u64_round_trip(n: u64)
    ensures
        spec_parse_u64(spec_digits(n as int)) == Some(n),
{
    lemma_spec_digits_all_digits(n as int);
    lemma_digits_val_of_spec_digits(n as int);
    if n < 10 {
        assert(spec_digits(n as int)[0] == digit_char(n as int));
        assert(digit_char(n as int) != '+');
    } else {
        assert(spec_digits(n as int)[0] == spec_digits(n as int / 10)[0]);
        lemma_spec_digits_all_digits(n as int / 10);
        assert(is_digit_char(spec_digits(n as int)[0]));
        assert(spec_digits(n as int)[0] != '+');
    }
}

/// Formatting an `i64` and parsing the result returns the same value.
pub proof fn lemma_i64_round_trip(n: i64)
    ensures
        spec_parse_i64(spec_signed_digits(n as int)) == Some(n),
{
    if n >= 0 {
        lemma_spec_digits_all_digits(n as int);
        lemma_digits_val_of_spec_digits(n as int);
        if n >= 10 {
            lemma_spec_digits_all_digits(n as int / 10);
        }
        assert(is_digit_char(spec_signed_digits(n as int)[0]));
    } else {
        let s = spec_signed_digits(n as int);
        lemma_spec_digits_all_digits(-(n as int));
        lemma_digits_val_of_spec_digits(-(n as int));
        assert(s[0] == '-');
        assert(s.skip(1) =~= spec_digits(-(n as int)));
    }
}

/// `true` or `false`, as the server's form fields write them.
pub fn bool_to_str(b: bool) -> (s: &'static str)
    ensures
        b ==> s@ == "true"@,
        !b ==> s@ == "false"@,
{
    if b {
        "true"
    } else {
        "false"
    }
}

} // verus!
