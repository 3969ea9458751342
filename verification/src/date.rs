//! Calendar instants, held as plain fields.
//!
//! The server writes creation times as ISO-8601 strings — usually
//! `Z`-suffixed, sometimes with a numeric offset — and a scraped
//! profile's creation date as `MM/DD/YYYY` with day precision,
//! coerced to midnight UTC.

use crate::text::all_digits;
use crate::text::digit_val;
use crate::text::is_digit_char;
use vstd::prelude::*;

verus! {

/// An instant with calendar fields spelled out, at the written UTC
/// offset (zero for a UTC instant).
#[derive(Debug, Clone, Copy, PartialEq, Eq, Hash, Structural)]
pub struct DateTime {
    pub year: u16,
    pub month: u8,
    pub day: u8,
    pub hour: u8,
    pub minute: u8,
    pub second: u8,
    /// Minutes east of UTC, as the instant was written.
    pub offset_minutes: i32,
}

/// `y` is a leap year of the Gregorian calendar.
pub open spec fn leap_year(y: int) -> bool {
    y % 4 == 0 && (y % 100 != 0 || y % 400 == 0)
}

/// The number of days of month `m` in year `y`.
pub open spec fn days_in_month(y: int, m: int) -> int {
    if m == 2 {
        if leap_year(y) {
            29
        } else {
            28
        }
    } else if m == 4 || m == 6 || m == 9 || m == 11 {
        30
    } else {
        31
    }
}

impl DateTime {
    /// The fields name a real calendar instant.
    pub open spec fn wf(self) -> bool {
        &&& 1 <= self.month <= 12
        &&& 1 <= self.day <= days_in_month(self.year as int, self.month as int)
        &&& self.hour < 24
        &&& self.minute < 60
        &&& self.second < 60
        &&& -1440 < self.offset_minutes < 1440
    }
}

/// The value of the two digits at `i`.
pub open spec fn spec_2dig(s: Seq<char>, i: int) -> int {
    digit_val(s[i]) * 10 + digit_val(s[i + 1])
}

/// The value of the four digits at `i`.
pub open spec fn spec_4dig(s: Seq<char>, i: int) -> int {
    digit_val(s[i]) * 1000 + digit_val(s[i + 1]) * 100 + digit_val(s[i + 2]) * 10 + digit_val(
        s[i + 3],
    )
}

/// The characters at `i..i+k` are all digits.
pub open spec fn digits_at(s: Seq<char>, i: int, k: int) -> bool {
    forall|j: int| i <= j < i + k ==> is_digit_char(#[trigger] s[j])
}

/// The shape `YYYY-MM-DDTHH:MM:SS` at the head of `s`.
pub open spec fn spec_iso_head_ok(s: Seq<char>) -> bool {
    &&& s.len() >= 20
    &&& digits_at(s, 0, 4)
    &&& s[4] == '-'
    &&& digits_at(s, 5, 2)
    &&& s[7] == '-'
    &&& digits_at(s, 8, 2)
    &&& s[10] == 'T'
    &&& digits_at(s, 11, 2)
    &&& s[13] == ':'
    &&& digits_at(s, 14, 2)
    &&& s[16] == ':'
    &&& digits_at(s, 17, 2)
}

/// A `+HH:MM`/`-HH:MM` offset fills `s[i..]` exactly.
pub open spec fn spec_iso_offset_ok(s: Seq<char>, i: int) -> bool {
    &&& i + 6 == s.len()
    &&& (s[i] == '+' || s[i] == '-')
    &&& digits_at(s, i + 1, 2)
    &&& s[i + 3] == ':'
    &&& digits_at(s, i + 4, 2)
    &&& spec_2dig(s, i + 1) < 24
    &&& spec_2dig(s, i + 4) < 60
}

/// The minutes east of UTC that the offset at `i` names.
pub open spec fn spec_iso_offset_minutes(s: Seq<char>, i: int) -> int {
    let m = spec_2dig(s, i + 1) * 60 + spec_2dig(s, i + 4);
    if s[i] == '-' {
        -m
    } else {
        m
    }
}

/// The tail after the seconds: `Z` or a numeric offset, with an
/// optional non-empty fraction of a second in between.
pub open spec fn spec_iso_tail_ok(s: Seq<char>) -> bool {
    if s.len() == 20 {
        s[19] == 'Z'
    } else if s.len() >= 21 && s[19] == '.' {
        if s.last() == 'Z' {
            s.len() >= 22 && all_digits(s.subrange(20, s.len() - 1))
        } else {
            s.len() >= 27 && all_digits(s.subrange(20, s.len() - 6)) && spec_iso_offset_ok(
                s,
                s.len() - 6,
            )
        }
    } else {
        s.len() == 25 && spec_iso_offset_ok(s, 19)
    }
}

/// The offset the tail names, once it is well-formed.
pub open spec fn spec_iso_offset_value(s: Seq<char>) -> int {
    if s.len() == 20 {
        0
    } else if s.len() >= 21 && s[19] == '.' {
        if s.last() == 'Z' {
            0
        } else {
            spec_iso_offset_minutes(s, s.len() - 6)
        }
    } else {
        spec_iso_offset_minutes(s, 19)
    }
}

/// The instant named by the ISO-8601 string `s`, if it is one.
pub open spec fn spec_parse_iso8601(s: Seq<char>) -> Option<DateTime> {
    if spec_iso_head_ok(s) && spec_iso_tail_ok(s) {
        let dt = DateTime {
            year: spec_4dig(s, 0) as u16,
            month: spec_2dig(s, 5) as u8,
            day: spec_2dig(s, 8) as u8,
            hour: spec_2dig(s, 11) as u8,
            minute: spec_2dig(s, 14) as u8,
            second: spec_2dig(s, 17) as u8,
            offset_minutes: spec_iso_offset_value(s) as i32,
        };
        if dt.wf() {
            Some(dt)
        } else {
            None
        }
    } else {
        None
    }
}

/// The midnight instant named by the `MM/DD/YYYY` string `s`, if it
/// is one.
pub open spec fn spec_parse_mdy(s: Seq<char>) -> Option<DateTime> {
    if s.len() == 10 && digits_at(s, 0, 2) && s[2] == '/' && digits_at(s, 3, 2) && s[5] == '/'
        && digits_at(s, 6, 4) {
        let dt = DateTime {
            year: spec_4dig(s, 6) as u16,
            month: spec_2dig(s, 0) as u8,
            day: spec_2dig(s, 3) as u8,
            hour: 0,
            minute: 0,
            second: 0,
            offset_minutes: 0,
        };
        if dt.wf() {
            Some(dt)
        } else {
            None
        }
    } else {
        None
    }
}

/// The digit value at `v[i]`, if `v[i]` is a digit.
fn digit_at(v: &Vec<char>, i: usize) -> (r: Option<u16>)
    requires
        i < v@.len(),
    ensures
        r matches Some(d) ==> is_digit_char(v@[i as int]) && digit_val(v@[i as int]) == d,
        r is None ==> !is_digit_char(v@[i as int]),
{
    let c = v[i];
    if c >= '0' && c <= '9' {
        let d = ((c as u32) - 48) as u16;
        Some(d)
    } else {
        None
    }
}

fn two_dig(v: &Vec<char>, i: usize) -> (r: Option<u8>)
    requires
        i + 1 < v@.len(),
    ensures
        r matches Some(d) ==> digits_at(v@, i as int, 2) && spec_2dig(v@, i as int) == d,
        r is None ==> !digits_at(v@, i as int, 2),
{
    let n = v.len();
    assert(i + 1 < n);
    let a = digit_at(v, i);
    let b = digit_at(v, i + 1);
    match (a, b) {
        (Some(x), Some(y)) => {
            let d = (x * 10 + y) as u8;
            assert(digits_at(v@, i as int, 2));
            Some(d)
        },
        _ => None,
    }
}

fn four_dig(v: &Vec<char>, i: usize) -> (r: Option<u16>)
    requires
        i + 3 < v@.len(),
    ensures
        r matches Some(d) ==> digits_at(v@, i as int, 4) && spec_4dig(v@, i as int) == d,
        r is None ==> !digits_at(v@, i as int, 4),
{
    let n = v.len();
    assert(i + 3 < n);
    let a = digit_at(v, i);
    let b = digit_at(v, i + 1);
    let c = digit_at(v, i + 2);
    let d = digit_at(v, i + 3);
    match (a, b, c, d) {
        (Some(w), Some(x), Some(y), Some(z)) => {
            let r = w * 1000 + x * 100 + y * 10 + z;
            assert(digits_at(v@, i as int, 4));
            Some(r)
        },
        _ => None,
    }
}

fn leap_year_exec(y: u16) -> (r: bool)
    ensures
        r == leap_year(y as int),
{
    y % 4 == 0 && (y % 100 != 0 || y % 400 == 0)
}

fn days_in_month_exec(y: u16, m: u8) -> (r: u8)
    ensures
        r == days_in_month(y as int, m as int),
{
    if m == 2 {
        if leap_year_exec(y) {
            29
        } else {
            28
        }
    } else if m == 4 || m == 6 || m == 9 || m == 11 {
        30
    } else {
        31
    }
}

fn check_wf(dt: DateTime) -> (r: bool)
    ensures
        r == dt.wf(),
{
    1 <= dt.month && dt.month <= 12 && 1 <= dt.day && dt.day <= days_in_month_exec(
        dt.year,
        dt.month,
    ) && dt.hour < 24 && dt.minute < 60 && dt.second < 60 && -1440 < dt.offset_minutes
        && dt.offset_minutes < 1440
}

/// Parse an ISO-8601 instant such as `2019-11-03T00:36:00.000000Z`
/// or `2020-01-15T08:30:00+02:00`.
#[verifier::loop_isolation(false)]
pub fn parse_iso8601(s: &str) -> (r: Option<DateTime>)
    ensures
        r == spec_parse_iso8601(s@),
        r matches Some(dt) ==> dt.wf(),
{
    let v = crate::text::str_to_chars(s);
    let n = v.len();
    if n < 20 {
        return None;
    }
    if !(v[4] == '-' && v[7] == '-' && v[10] == 'T' && v[13] == ':' && v[16] == ':') {
        return None;
    }
    let year = match four_dig(&v, 0) {
        Some(d) => d,
        None => {
            return None;
        },
    };
    let month = match two_dig(&v, 5) {
        Some(d) => d,
        None => {
            return None;
        },
    };
    let day = match two_dig(&v, 8) {
        Some(d) => d,
        None => {
            return None;
        },
    };
    let hour = match two_dig(&v, 11) {
        Some(d) => d,
        None => {
            return None;
        },
    };
    let minute = match two_dig(&v, 14) {
        Some(d) => d,
        None => {
            return None;
        },
    };
    let second = match two_dig(&v, 17) {
        Some(d) => d,
        None => {
            return None;
        },
    };
    let offset_minutes: i32;
    if n == 20 {
        if v[19] != 'Z' {
            return None;
        }
        offset_minutes = 0;
    } else if v[19] == '.' {
        let frac_end: usize = if v[n - 1] == 'Z' {
            if n < 22 {
                return None;
            }
            n - 1
        } else {
            if n < 27 {
                return None;
            }
            n - 6
        };
        let mut j: usize = 20;
        while j < frac_end
            invariant
                20 <= j <= frac_end <= n,
                n == v@.len(),
                all_digits(v@.subrange(20, j as int)),
            decreases frac_end - j,
        {
            let d = digit_at(&v, j);
            if d.is_none() {
                proof {
                    assert(!is_digit_char(v@.subrange(20, frac_end as int)[j - 20]));
                }
                return None;
            }
            proof {
                assert(v@.subrange(20, j + 1) =~= v@.subrange(20, j as int).push(v@[j as int]));
            }
            j = j + 1;
        }
        proof {
            assert(v@.subrange(20, frac_end as int) =~= v@.subrange(20, j as int));
        }
        if v[n - 1] == 'Z' {
            offset_minutes = 0;
        } else {
            offset_minutes = match parse_offset(&v, n - 6) {
                Some(m) => m,
                None => {
                    return None;
                },
            };
        }
    } else {
        if n != 25 {
            return None;
        }
        offset_minutes = match parse_offset(&v, 19) {
            Some(m) => m,
            None => {
                return None;
            },
        };
    }
    let dt = DateTime { year, month, day, hour, minute, second, offset_minutes };
    if check_wf(dt) {
        Some(dt)
    } else {
        None
    }
}

/// Parse the `+HH:MM`/`-HH:MM` offset that must fill `v[i..]`.
fn parse_offset(v: &Vec<char>, i: usize) -> (r: Option<i32>)
    requires
        i + 6 == v@.len(),
    ensures
        r matches Some(m) ==> spec_iso_offset_ok(v@, i as int) && m == spec_iso_offset_minutes(
            v@,
            i as int,
        ),
        r is None ==> !spec_iso_offset_ok(v@, i as int),
{
    let n = v.len();
    assert(i + 6 == n);
    let sign = v[i];
    if sign != '+' && sign != '-' {
        return None;
    }
    let hh = match two_dig(v, i + 1) {
        Some(d) => d,
        None => {
            return None;
        },
    };
    if v[i + 3] != ':' {
        return None;
    }
    let mm = match two_dig(v, i + 4) {
        Some(d) => d,
        None => {
            return None;
        },
    };
    if hh >= 24 || mm >= 60 {
        return None;
    }
    let m = (hh as i32) * 60 + (mm as i32);
    if sign == '-' {
        Some(-m)
    } else {
        Some(m)
    }
}

/// Parse a day-precision `MM/DD/YYYY` date as its midnight UTC
/// instant.
pub fn parse_mdy_date(s: &str) -> (r: Option<DateTime>)
    ensures
        r == spec_parse_mdy(s@),
        r matches Some(dt) ==> dt.wf() && dt.hour == 0 && dt.minute == 0 && dt.second == 0,
{
    let v = crate::text::str_to_chars(s);
    let n = v.len();
    if n != 10 {
        return None;
    }
    if !(v[2] == '/' && v[5] == '/') {
        return None;
    }
    let month = match two_dig(&v, 0) {
        Some(d) => d,
        None => {
            return None;
        },
    };
    let day = match two_dig(&v, 3) {
        Some(d) => d,
        None => {
            return None;
        },
    };
    let year = match four_dig(&v, 6) {
        Some(d) => d,
        None => {
            return None;
        },
    };
    let dt = DateTime { year, month, day, hour: 0, minute: 0, second: 0, offset_minutes: 0 };
    if check_wf(dt) {
        Some(dt)
    } else {
        None
    }
}

} // verus!
