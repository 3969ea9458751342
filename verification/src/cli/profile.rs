//! Options and pure logic of the profile command: pulling a
//! username out of the given argument, and rendering the scraped
//! profile.

use crate::model::scraped_user::ScrapedUser;
use crate::text::all_digits;
use crate::text::is_digit_char;
use crate::text::chars_range_to_string;
use crate::text::chars_to_string;
use crate::text::push_str_chars;
use crate::text::push_u64_digits;
use crate::text::spec_digits;
use crate::text::str_to_chars;
use crate::text::u64_digits;
use vstd::prelude::*;

verus! {

/// Options of the profile command.
#[derive(Debug, Clone)]
pub struct Options {
    /// The user to fetch profile data for, as a name or a profile
    /// URL.
    pub user: String,
}

/// The position of the first `://` scheme separator, or the end.
pub open spec fn spec_first_scheme_idx(s: Seq<char>, i: int) -> int
    recommends
        0 <= i <= s.len(),
    decreases s.len() - i,
{
    if i < 0 || i + 2 >= s.len() {
        s.len() as int
    } else if s[i] == ':' && s[i + 1] == '/' && s[i + 2] == '/' {
        i
    } else {
        spec_first_scheme_idx(s, i + 1)
    }
}

/// The position of the first `/` at or after `i`, or the end.
pub open spec fn spec_first_slash(s: Seq<char>, i: int) -> int
    recommends
        0 <= i <= s.len(),
    decreases s.len() - i,
{
    if i < 0 || i >= s.len() {
        s.len() as int
    } else if s[i] == '/' {
        i
    } else {
        spec_first_slash(s, i + 1)
    }
}

/// The position of the first `:` in `i..end`, or `end`.
pub open spec fn spec_first_colon(s: Seq<char>, i: int, end: int) -> int
    recommends
        0 <= i <= end <= s.len(),
    decreases end - i,
{
    if i < 0 || i >= end || end > s.len() {
        end
    } else if s[i] == ':' {
        i
    } else {
        spec_first_colon(s, i + 1, end)
    }
}

/// The username a profile argument names. A plain argument is taken
/// as a name. An argument with a scheme must be a URL of the known
/// host — any scheme, an optional numeric port — whose path starts
/// `/u/`; the path segment after `/u/` is then the name.
pub open spec fn spec_extract_user(input: Seq<char>) -> Option<Seq<char>> {
    let k = spec_first_scheme_idx(input, 0);
    if k + 2 >= input.len() {
        Some(input)
    } else {
        let auth_start = k + 3;
        let auth_end = spec_first_slash(input, auth_start);
        let colon = spec_first_colon(input, auth_start, auth_end);
        let host = input.subrange(auth_start, colon);
        let port_ok = colon == auth_end || all_digits(input.subrange(colon + 1, auth_end));
        if host == "imgchest.com"@ && port_ok && auth_end + 2 < input.len() && input[auth_end + 1]
            == 'u' && input[auth_end + 2] == '/' {
            spec_url_segment(input, auth_end + 3)
        } else {
            None
        }
    }
}

/// The non-empty path segment of `s` starting at `from`, if any.
pub open spec fn spec_url_segment(s: Seq<char>, from: int) -> Option<Seq<char>> {
    let seg = s.subrange(from, spec_first_slash(s, from));
    if seg.len() > 0 {
        Some(seg)
    } else {
        None
    }
}

fn first_scheme_idx(v: &Vec<char>) -> (r: usize)
    ensures
        r == spec_first_scheme_idx(v@, 0),
        r <= v@.len(),
{
    let n = v.len();
    let mut i: usize = 0;
    while i < n && n - i > 2
        invariant
            i <= n,
            n == v@.len(),
            spec_first_scheme_idx(v@, 0) == spec_first_scheme_idx(v@, i as int),
        decreases n - i,
    {
        if v[i] == ':' && v[i + 1] == '/' && v[i + 2] == '/' {
            return i;
        }
        i = i + 1;
    }
    n
}

fn first_slash(v: &Vec<char>, from: usize) -> (r: usize)
    requires
        from <= v@.len(),
    ensures
        r == spec_first_slash(v@, from as int),
        from <= r <= v@.len(),
{
    let n = v.len();
    let mut i = from;
    while i < n
        invariant
            from <= i <= n,
            n == v@.len(),
            spec_first_slash(v@, from as int) == spec_first_slash(v@, i as int),
        decreases n - i,
    {
        if v[i] == '/' {
            return i;
        }
        i = i + 1;
    }
    n
}

fn first_colon(v: &Vec<char>, from: usize, end: usize) -> (r: usize)
    requires
        from <= end <= v@.len(),
    ensures
        r == spec_first_colon(v@, from as int, end as int),
        from <= r <= end,
{
    let mut i = from;
    while i < end
        invariant
            from <= i <= end <= v@.len(),
            spec_first_colon(v@, from as int, end as int) == spec_first_colon(
                v@,
                i as int,
                end as int,
            ),
        decreases end - i,
    {
        if v[i] == ':' {
            return i;
        }
        i = i + 1;
    }
    end
}

/// The characters `v[a..b]` equal the characters of `p`.
fn range_eq_lit(v: &Vec<char>, a: usize, b: usize, p: &str) -> (r: bool)
    requires
        a <= b <= v@.len(),
    ensures
        r == (v@.subrange(a as int, b as int) == p@),
{
    let m = p.unicode_len();
    if b - a != m {
        proof {
            assert(v@.subrange(a as int, b as int).len() != p@.len());
        }
        return false;
    }
    let mut j: usize = 0;
    while j < m
        invariant
            j <= m,
            m == p@.len(),
            b - a == m,
            a <= b <= v@.len(),
            forall|t: int| 0 <= t < j ==> v@[a + t] == p@[t],
        decreases m - j,
    {
        let pc = p.get_char(j);
        if v[a + j] != pc {
            proof {
                assert(v@.subrange(a as int, b as int)[j as int] == v@[a + j]);
            }
            return false;
        }
        j = j + 1;
    }
    proof {
        assert(v@.subrange(a as int, b as int) =~= p@);
    }
    true
}

/// The characters `v[a..b]` are all decimal digits.
fn range_all_digits(v: &Vec<char>, a: usize, b: usize) -> (r: bool)
    requires
        a <= b <= v@.len(),
    ensures
        r == all_digits(v@.subrange(a as int, b as int)),
{
    let mut j = a;
    while j < b
        invariant
            a <= j <= b <= v@.len(),
            forall|t: int| a <= t < j ==> is_digit_char(#[trigger] v@[t]),
        decreases b - j,
    {
        let c = v[j];
        if !(c >= '0' && c <= '9') {
            proof {
                assert(v@.subrange(a as int, b as int)[j - a] == v@[j as int]);
            }
            return false;
        }
        j = j + 1;
    }
    proof {
        assert(forall|t: int|
            0 <= t < b - a ==> is_digit_char(#[trigger] v@.subrange(a as int, b as int)[t]));
    }
    true
}

/// Pull the username out of a profile argument, per
/// [`spec_extract_user`].
pub fn extract_user(input: String) -> (r: Option<String>)
    ensures
        match r {
            Some(u) => spec_extract_user(input@) == Some(u@),
            None => spec_extract_user(input@) is None,
        },
{
    let v = str_to_chars(input.as_str());
    let n = v.len();
    let k = first_scheme_idx(&v);
    if k >= n || n - k <= 2 {
        return Some(input);
    }
    let auth_start = k + 3;
    let auth_end = first_slash(&v, auth_start);
    let colon = first_colon(&v, auth_start, auth_end);
    let host_ok = range_eq_lit(&v, auth_start, colon, "imgchest.com");
    let port_ok = colon == auth_end || range_all_digits(&v, colon + 1, auth_end);
    if !(host_ok && port_ok) {
        return None;
    }
    if !(auth_end < n && n - auth_end > 2 && v[auth_end + 1] == 'u' && v[auth_end + 2] == '/') {
        return None;
    }
    let from = auth_end + 3;
    let end = first_slash(&v, from);
    if end > from {
        Some(chars_range_to_string(&v, from, end))
    } else {
        None
    }
}

/// The decimal form of `n` with a comma between each group of three
/// digits.
pub open spec fn spec_grouped(s: Seq<char>) -> Seq<char>
    decreases s.len(),
{
    if s.len() <= 3 {
        s
    } else {
        spec_grouped(s.take(s.len() - 3)) + seq![','] + s.skip(s.len() - 3)
    }
}

fn group_chars(v: Vec<char>) -> (r: Vec<char>)
    ensures
        r@ == spec_grouped(v@),
    decreases v@.len(),
{
    if v.len() <= 3 {
        v
    } else {
        let ghost orig = v@;
        let mut v = v;
        let at = v.len() - 3;
        let mut tail = v.split_off(at);
        let mut r = group_chars(v);
        r.push(',');
        r.append(&mut tail);
        proof {
            assert(r@ =~= spec_grouped(orig));
        }
        r
    }
}

/// A number rendered with thousands separators.
#[derive(Debug, Clone, Copy, PartialEq, Eq, Hash, Structural)]
pub struct PrettyFormatU64(pub u64);

impl PrettyFormatU64 {
    /// The grouped decimal text of the number.
    pub fn to_display_string(&self) -> (s: String)
        ensures
            s@ == spec_grouped(spec_digits(self.0 as int)),
    {
        let digits = u64_digits(self.0);
        let grouped = group_chars(digits);
        chars_to_string(&grouped)
    }
}

/// The profile, rendered for a human reader.
pub open spec fn spec_profile_text(u: ScrapedUser) -> Seq<char> {
    "Name: "@ + u.name@ + seq!['\n'] + "Joined: "@ + spec_digits(u.created.month as int) + seq![
        '/',
    ] + spec_digits(u.created.day as int) + seq!['/'] + spec_digits(u.created.year as int) + seq![
        '\n',
    ] + "XP: "@ + spec_grouped(spec_digits(u.experience as int)) + seq!['\n'] + "Posts: "@
        + spec_digits(u.posts as int) + seq!['\n'] + "Comments: "@ + spec_digits(u.comments as int)
        + seq!['\n'] + "Favorites: "@ + spec_digits(u.favorites as int) + seq!['\n']
        + "Post Views: "@ + spec_grouped(spec_digits(u.post_views as int)) + seq!['\n']
}

/// Render a scraped profile, exactly as [`spec_profile_text`] lays
/// it out.
pub fn render_profile(u: &ScrapedUser) -> (s: String)
    ensures
        s@ == spec_profile_text(*u),
{
    let mut out: Vec<char> = Vec::new();
    push_str_chars(&mut out, "Name: ");
    push_str_chars(&mut out, u.name.as_str());
    out.push('\n');
    push_str_chars(&mut out, "Joined: ");
    push_u64_digits(u.created.month as u64, &mut out);
    out.push('/');
    push_u64_digits(u.created.day as u64, &mut out);
    out.push('/');
    push_u64_digits(u.created.year as u64, &mut out);
    out.push('\n');
    push_str_chars(&mut out, "XP: ");
    let xp = group_chars(u64_digits(u.experience));
    let mut xp = xp;
    out.append(&mut xp);
    out.push('\n');
    push_str_chars(&mut out, "Posts: ");
    push_u64_digits(u.posts, &mut out);
    out.push('\n');
    push_str_chars(&mut out, "Comments: ");
    push_u64_digits(u.comments, &mut out);
    out.push('\n');
    push_str_chars(&mut out, "Favorites: ");
    push_u64_digits(u.favorites, &mut out);
    out.push('\n');
    push_str_chars(&mut out, "Post Views: ");
    let pv = group_chars(u64_digits(u.post_views));
    let mut pv = pv;
    out.append(&mut pv);
    out.push('\n');
    proof {
        assert(out@ =~= spec_profile_text(*u));
    }
    chars_to_string(&out)
}

} // verus!
