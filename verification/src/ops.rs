//! The operation layer: for each remote capability, the pre-send
//! validation and request building, and the interpretation of the
//! response body. The surrounding runtime performs the one HTTP
//! exchange in between and hands the body text back.
//!
//! Every operation follows the same strictly ordered sequence:
//! validate, authenticate, draw a governor slot, send, interpret.

use crate::builder::spec_privacy_str;
use crate::builder::CreatePostBuilder;
use crate::builder::ListPostsBuilder;
use crate::builder::SortOrder;
use crate::builder::UpdatePostBuilder;
use crate::builder::UploadPostFile;
use crate::codec::field_bool_text;
use crate::codec::field_opt_str;
use crate::codec::spec_val_bool_text;
use crate::codec::spec_val_opt_str;
use crate::codec::view_opt_str;
use crate::codec::DecodeError;
use crate::codec::DecodeErrorKind;
use crate::json::parse_json;
use crate::json::push_escaped;
use crate::json::spec_escape;
use crate::json::spec_obj_get;
use crate::json::take_field;
use crate::json::JsonValue;
use crate::model::list_posts::decode_list_posts;
use crate::model::list_posts::spec_decode_list_posts;
use crate::model::list_posts::ListPostsPost;
use crate::model::post::decode_file;
use crate::model::post::decode_files;
use crate::model::post::decode_post;
use crate::model::post::spec_decode_file;
use crate::model::post::spec_decode_files;
use crate::model::post::spec_decode_post;
use crate::model::post::File as PostFile;
use crate::model::post::Post;
use crate::model::user::decode_user;
use crate::model::user::spec_decode_user;
use crate::model::user::User;
use crate::model::FileUpdate;
use crate::text::chars_to_string;
use crate::text::push_str_chars;
use crate::text::push_u64_digits;
use crate::text::spec_digits;
use crate::text::str_eq;
use crate::Error;
use vstd::prelude::*;

verus! {

broadcast use vstd::string::group_string_axioms;

/// The `true`/`false` word of a boolean form field.
pub open spec fn spec_bool_str(b: bool) -> Seq<char> {
    if b {
        "true"@
    } else {
        "false"@
    }
}

/// The wire word of a sort order.
pub open spec fn spec_sort_str(s: SortOrder) -> Seq<char> {
    match s {
        SortOrder::Popular => "popular"@,
        SortOrder::New => "new"@,
        SortOrder::Old => "old"@,
    }
}

// ---- Query building for the listing endpoint ----

/// The UTF-8 bytes of one character.
pub open spec fn spec_char_utf8(c: char) -> Seq<u8> {
    let u = c as int;
    if u < 0x80 {
        seq![u as u8]
    } else if u < 0x800 {
        seq![(0xC0 + u / 0x40) as u8, (0x80 + u % 0x40) as u8]
    } else if u < 0x10000 {
        seq![
            (0xE0 + u / 0x1000) as u8,
            (0x80 + (u / 0x40) % 0x40) as u8,
            (0x80 + u % 0x40) as u8,
        ]
    } else {
        seq![
            (0xF0 + u / 0x40000) as u8,
            (0x80 + (u / 0x1000) % 0x40) as u8,
            (0x80 + (u / 0x40) % 0x40) as u8,
            (0x80 + u % 0x40) as u8,
        ]
    }
}

/// A byte a form-urlencoded query leaves unescaped.
pub open spec fn is_form_unreserved(b: u8) -> bool {
    ||| (48 <= b <= 57)
    ||| (65 <= b <= 90)
    ||| (97 <= b <= 122)
    ||| b == 42
    ||| b == 45
    ||| b == 46
    ||| b == 95
}

/// The uppercase hexadecimal digit character for `d`.
pub open spec fn hex_upper_char(d: int) -> char {
    if d == 0 {
        '0'
    } else if d == 1 {
        '1'
    } else if d == 2 {
        '2'
    } else if d == 3 {
        '3'
    } else if d == 4 {
        '4'
    } else if d == 5 {
        '5'
    } else if d == 6 {
        '6'
    } else if d == 7 {
        '7'
    } else if d == 8 {
        '8'
    } else if d == 9 {
        '9'
    } else if d == 10 {
        'A'
    } else if d == 11 {
        'B'
    } else if d == 12 {
        'C'
    } else if d == 13 {
        'D'
    } else if d == 14 {
        'E'
    } else {
        'F'
    }
}

/// How one byte is written in a form-urlencoded query.
pub open spec fn spec_form_byte(b: u8) -> Seq<char> {
    if is_form_unreserved(b) {
        seq![b as char]
    } else if b == 32 {
        seq!['+']
    } else {
        seq!['%', hex_upper_char(b as int / 16), hex_upper_char(b as int % 16)]
    }
}

/// How a byte string is written in a form-urlencoded query.
pub open spec fn spec_form_bytes(bs: Seq<u8>) -> Seq<char>
    decreases bs.len(),
{
    if bs.len() == 0 {
        Seq::empty()
    } else {
        spec_form_bytes(bs.drop_last()) + spec_form_byte(bs.last())
    }
}

/// How a character string is written in a form-urlencoded query:
/// each character's UTF-8 bytes, escaped byte by byte.
pub open spec fn spec_form_encode(s: Seq<char>) -> Seq<char>
    decreases s.len(),
{
    if s.len() == 0 {
        Seq::empty()
    } else {
        spec_form_encode(s.drop_last()) + spec_form_bytes(spec_char_utf8(s.last()))
    }
}

fn hex_upper(d: u32) -> (c: char)
    requires
        d < 16,
    ensures
        c == hex_upper_char(d as int),
{
    if d == 0 {
        '0'
    } else if d == 1 {
        '1'
    } else if d == 2 {
        '2'
    } else if d == 3 {
        '3'
    } else if d == 4 {
        '4'
    } else if d == 5 {
        '5'
    } else if d == 6 {
        '6'
    } else if d == 7 {
        '7'
    } else if d == 8 {
        '8'
    } else if d == 9 {
        '9'
    } else if d == 10 {
        'A'
    } else if d == 11 {
        'B'
    } else if d == 12 {
        'C'
    } else if d == 13 {
        'D'
    } else if d == 14 {
        'E'
    } else {
        'F'
    }
}

/// The UTF-8 bytes of one character.
fn char_utf8(c: char) -> (r: Vec<u8>)
    ensures
        r@ == spec_char_utf8(c),
{
    let u = c as u32;
    let mut out: Vec<u8> = Vec::new();
    if u < 0x80 {
        out.push(u as u8);
        assert(out@ =~= spec_char_utf8(c));
    } else if u < 0x800 {
        out.push((0xC0 + u / 0x40) as u8);
        out.push((0x80 + u % 0x40) as u8);
        assert(out@ =~= spec_char_utf8(c));
    } else if u < 0x10000 {
        out.push((0xE0 + u / 0x1000) as u8);
        out.push((0x80 + (u / 0x40) % 0x40) as u8);
        out.push((0x80 + u % 0x40) as u8);
        assert(out@ =~= spec_char_utf8(c));
    } else {
        out.push((0xF0 + u / 0x40000) as u8);
        out.push((0x80 + (u / 0x1000) % 0x40) as u8);
        out.push((0x80 + (u / 0x40) % 0x40) as u8);
        out.push((0x80 + u % 0x40) as u8);
        assert(out@ =~= spec_char_utf8(c));
    }
    out
}

fn push_form_byte(b: u8, out: &mut Vec<char>)
    ensures
        final(out)@ == old(out)@ + spec_form_byte(b),
{
    if (48 <= b && b <= 57) || (65 <= b && b <= 90) || (97 <= b && b <= 122) || b == 42 || b == 45
        || b == 46 || b == 95 {
        out.push(b as char);
        assert(out@ =~= old(out)@ + spec_form_byte(b));
    } else if b == 32 {
        out.push('+');
        assert(out@ =~= old(out)@ + spec_form_byte(b));
    } else {
        out.push('%');
        let hi = hex_upper((b as u32) / 16);
        let lo = hex_upper((b as u32) % 16);
        out.push(hi);
        out.push(lo);
        assert(out@ =~= old(out)@ + spec_form_byte(b));
    }
}

/// Append the form-urlencoded form of `s` to `out`.
#[verifier::loop_isolation(false)]
pub fn push_form_encoded(s: &str, out: &mut Vec<char>)
    ensures
        final(out)@ == old(out)@ + spec_form_encode(s@),
{
    let n = s.unicode_len();
    let mut i: usize = 0;
    while i < n
        invariant
            i <= n,
            n == s@.len(),
            out@ == old(out)@ + spec_form_encode(s@.take(i as int)),
        decreases n - i,
    {
        let c = s.get_char(i);
        let bs = char_utf8(c);
        let m = bs.len();
        let mut j: usize = 0;
        while j < m
            invariant
                j <= m,
                m == bs@.len(),
                bs@ == spec_char_utf8(s@[i as int]),
                i < n,
                out@ == old(out)@ + spec_form_encode(s@.take(i as int)) + spec_form_bytes(
                    bs@.take(j as int),
                ),
            decreases m - j,
        {
            push_form_byte(bs[j], out);
            proof {
                assert(bs@.take(j + 1).drop_last() =~= bs@.take(j as int));
                assert(bs@.take(j + 1).last() == bs@[j as int]);
            }
            j = j + 1;
        }
        proof {
            assert(bs@.take(m as int) =~= bs@);
            assert(s@.take(i + 1).drop_last() =~= s@.take(i as int));
            assert(s@.take(i + 1).last() == s@[i as int]);
        }
        i = i + 1;
    }
    proof {
        assert(s@.take(n as int) =~= s@);
    }
}

/// The query string of a listing request: `sort` and `page` always,
/// `username` when one is set, `profile=true` only when asked for.
pub open spec fn spec_list_posts_query(b: ListPostsBuilder) -> Seq<char> {
    let base = "sort="@ + spec_sort_str(b.sort) + "&page="@ + spec_digits(b.page as int);
    let with_user = match b.username {
        Some(u) => base + "&username="@ + spec_form_encode(u@),
        None => base,
    };
    if b.profile {
        with_user + "&profile=true"@
    } else {
        with_user
    }
}

/// Build the query string of a listing request, exactly as
/// [`spec_list_posts_query`] lays it out.
pub fn list_posts_query(b: &ListPostsBuilder) -> (q: String)
    ensures
        q@ == spec_list_posts_query(*b),
{
    let mut out: Vec<char> = Vec::new();
    push_str_chars(&mut out, "sort=");
    match b.sort {
        SortOrder::Popular => push_str_chars(&mut out, "popular"),
        SortOrder::New => push_str_chars(&mut out, "new"),
        SortOrder::Old => push_str_chars(&mut out, "old"),
    }
    push_str_chars(&mut out, "&page=");
    push_u64_digits(b.page, &mut out);
    match &b.username {
        Some(u) => {
            push_str_chars(&mut out, "&username=");
            push_form_encoded(u.as_str(), &mut out);
        },
        None => {},
    }
    if b.profile {
        push_str_chars(&mut out, "&profile=true");
    }
    proof {
        assert(out@ =~= spec_list_posts_query(*b));
    }
    chars_to_string(&out)
}

/// The listing URL for a builder.
pub fn list_posts_url(b: &ListPostsBuilder) -> (u: String)
    ensures
        u@ == "https://imgchest.com/api/posts?"@ + spec_list_posts_query(*b),
{
    let q = list_posts_query(b);
    String::from_str("https://imgchest.com/api/posts?").concat(q.as_str())
}

// ---- URLs of the other endpoints ----

/// The authenticated URL of one post.
pub fn api_post_url(id: &str) -> (u: String)
    ensures
        u@ == "https://api.imgchest.com/v1/post/"@ + id@,
{
    String::from_str("https://api.imgchest.com/v1/post/").concat(id)
}

/// The authenticated URL for creating a post.
pub fn api_create_post_url() -> (u: String)
    ensures
        u@ == "https://api.imgchest.com/v1/post"@,
{
    String::from_str("https://api.imgchest.com/v1/post")
}

/// The authenticated URL for toggling a post's favorite mark.
pub fn api_favorite_url(id: &str) -> (u: String)
    ensures
        u@ == "https://api.imgchest.com/v1/post/"@ + id@ + "/favorite"@,
{
    api_post_url(id).concat("/favorite")
}

/// The authenticated URL for adding images to a post.
pub fn api_add_images_url(id: &str) -> (u: String)
    ensures
        u@ == "https://api.imgchest.com/v1/post/"@ + id@ + "/add"@,
{
    api_post_url(id).concat("/add")
}

/// The authenticated URL of one user.
pub fn api_user_url(username: &str) -> (u: String)
    ensures
        u@ == "https://api.imgchest.com/v1/user/"@ + username@,
{
    String::from_str("https://api.imgchest.com/v1/user/").concat(username)
}

/// The authenticated URL of one file.
pub fn api_file_url(id: &str) -> (u: String)
    ensures
        u@ == "https://api.imgchest.com/v1/file/"@ + id@,
{
    String::from_str("https://api.imgchest.com/v1/file/").concat(id)
}

/// The authenticated URL of the bulk file update.
pub fn api_files_url() -> (u: String)
    ensures
        u@ == "https://api.imgchest.com/v1/files"@,
{
    String::from_str("https://api.imgchest.com/v1/files")
}

/// The page URL of one post, for scraping.
pub fn scrape_post_url(id: &str) -> (u: String)
    ensures
        u@ == "https://imgchest.com/p/"@ + id@,
{
    String::from_str("https://imgchest.com/p/").concat(id)
}

/// The URL of the call that loads the remaining files of a post.
pub fn scrape_load_all_url(id: &str) -> (u: String)
    ensures
        u@ == "https://imgchest.com/p/"@ + id@ + "/loadAll"@,
{
    scrape_post_url(id).concat("/loadAll")
}

/// The page URL of one user profile, for scraping.
pub fn scrape_user_url(name: &str) -> (u: String)
    ensures
        u@ == "https://imgchest.com/u/"@ + name@,
{
    String::from_str("https://imgchest.com/u/").concat(name)
}

// ---- Pre-send validation and form building ----

/// The text form fields of a create-post request, in wire order.
pub open spec fn spec_create_post_pairs(b: CreatePostBuilder) -> Seq<(Seq<char>, Seq<char>)> {
    (match b.title {
        Some(t) => seq![("title"@, t@)],
        None => Seq::empty(),
    }) + (match b.privacy {
        Some(p) => seq![("privacy"@, spec_privacy_str(p))],
        None => Seq::empty(),
    }) + (match b.anonymous {
        Some(a) => seq![("anonymous"@, spec_bool_str(a))],
        None => Seq::empty(),
    }) + (match b.nsfw {
        Some(x) => seq![("nsfw"@, spec_bool_str(x))],
        None => Seq::empty(),
    })
}

/// A short title: fewer than three characters.
pub open spec fn spec_title_too_short(title: Option<String>) -> bool {
    match title {
        Some(t) => t@.len() < 3,
        None => false,
    }
}

/// Validate a create-post request and build its text form fields.
///
/// A short title is rejected before anything else, and a request
/// with no image is rejected next; both before any network effect.
pub fn create_post_form(data: CreatePostBuilder) -> (r: Result<
    (Vec<(String, String)>, Vec<UploadPostFile>),
    Error,
>)
    ensures
        spec_title_too_short(data.title) ==> (r matches Err(e) && e matches Error::TitleTooShort),
        !spec_title_too_short(data.title) && data.images@.len() == 0 ==> (r matches Err(e)
            && e matches Error::MissingImages),
        !spec_title_too_short(data.title) && data.images@.len() > 0 ==> (r matches Ok(p)
            && p.0@.map_values(|pr: (String, String)| (pr.0@, pr.1@)) == spec_create_post_pairs(
            data,
        ) && p.1 == data.images),
{
    let CreatePostBuilder { title, privacy, anonymous, nsfw, images } = data;
    let mut pairs: Vec<(String, String)> = Vec::new();
    match &title {
        Some(t) => {
            if t.as_str().unicode_len() < 3 {
                return Err(Error::TitleTooShort);
            }
        },
        None => {},
    }
    if images.len() == 0 {
        return Err(Error::MissingImages);
    }
    match title {
        Some(t) => {
            pairs.push((String::from_str("title"), t));
        },
        None => {},
    }
    match privacy {
        Some(p) => {
            pairs.push((String::from_str("privacy"), String::from_str(p.as_str())));
        },
        None => {},
    }
    match anonymous {
        Some(a) => {
            pairs.push((String::from_str("anonymous"), String::from_str(bool_word(a))));
        },
        None => {},
    }
    match nsfw {
        Some(x) => {
            pairs.push((String::from_str("nsfw"), String::from_str(bool_word(x))));
        },
        None => {},
    }
    proof {
        assert(pairs@.map_values(|pr: (String, String)| (pr.0@, pr.1@)) =~= spec_create_post_pairs(
            data,
        ));
    }
    Ok((pairs, images))
}

/// The text form fields of an update-post request, in wire order.
pub open spec fn spec_update_post_pairs(b: UpdatePostBuilder) -> Seq<(Seq<char>, Seq<char>)> {
    (match b.title {
        Some(t) => seq![("title"@, t@)],
        None => Seq::empty(),
    }) + (match b.privacy {
        Some(p) => seq![("privacy"@, spec_privacy_str(p))],
        None => Seq::empty(),
    }) + (match b.nsfw {
        Some(x) => seq![("nsfw"@, spec_bool_str(x))],
        None => Seq::empty(),
    })
}

/// Validate an update-post request and build its form fields. The
/// update is sent url-encoded, never multipart: the server silently
/// ignores a mismatched encoding.
pub fn update_post_form(data: UpdatePostBuilder) -> (r: Result<Vec<(String, String)>, Error>)
    ensures
        spec_title_too_short(data.title) ==> (r matches Err(e) && e matches Error::TitleTooShort),
        !spec_title_too_short(data.title) ==> (r matches Ok(p) && p@.map_values(
            |pr: (String, String)| (pr.0@, pr.1@),
        ) == spec_update_post_pairs(data)),
{
    let UpdatePostBuilder { title, privacy, nsfw } = data;
    let mut pairs: Vec<(String, String)> = Vec::new();
    match &title {
        Some(t) => {
            if t.as_str().unicode_len() < 3 {
                return Err(Error::TitleTooShort);
            }
        },
        None => {},
    }
    match title {
        Some(t) => {
            pairs.push((String::from_str("title"), t));
        },
        None => {},
    }
    match privacy {
        Some(p) => {
            pairs.push((String::from_str("privacy"), String::from_str(p.as_str())));
        },
        None => {},
    }
    match nsfw {
        Some(x) => {
            pairs.push((String::from_str("nsfw"), String::from_str(bool_word(x))));
        },
        None => {},
    }
    proof {
        assert(pairs@.map_values(|pr: (String, String)| (pr.0@, pr.1@)) =~= spec_update_post_pairs(
            data,
        ));
    }
    Ok(pairs)
}

/// Validate an add-images request: at least one file is required.
pub fn add_post_images_form(images: Vec<UploadPostFile>) -> (r: Result<Vec<UploadPostFile>, Error>)
    ensures
        images@.len() == 0 ==> (r matches Err(e) && e matches Error::MissingImages),
        images@.len() > 0 ==> (r matches Ok(v) && v == images),
{
    if images.len() == 0 {
        Err(Error::MissingImages)
    } else {
        Ok(images)
    }
}

/// Validate a file update: the description must be non-empty.
pub fn update_file_form(description: &str) -> (r: Result<Vec<(String, String)>, Error>)
    ensures
        description@.len() == 0 ==> (r matches Err(e) && e matches Error::MissingDescription),
        description@.len() > 0 ==> (r matches Ok(p) && p@.map_values(
            |pr: (String, String)| (pr.0@, pr.1@),
        ) == seq![("description"@, description@)]),
{
    if description.unicode_len() == 0 {
        return Err(Error::MissingDescription);
    }
    let mut pairs: Vec<(String, String)> = Vec::new();
    pairs.push((String::from_str("description"), String::from_str(description)));
    proof {
        assert(pairs@.map_values(|pr: (String, String)| (pr.0@, pr.1@)) =~= seq![
            ("description"@, description@),
        ]);
    }
    Ok(pairs)
}

/// The JSON body of one bulk file update entry.
pub open spec fn spec_bulk_item(f: FileUpdate) -> Seq<char> {
    "{\"id\":\""@ + spec_escape(f.id@) + "\",\"description\":\""@ + spec_escape(f.description@)
        + "\"}"@
}

/// The comma-separated JSON entries of a bulk file update.
pub open spec fn spec_bulk_items(fs: Seq<FileUpdate>) -> Seq<char>
    decreases fs.len(),
{
    if fs.len() == 0 {
        Seq::empty()
    } else if fs.len() == 1 {
        spec_bulk_item(fs[0])
    } else {
        spec_bulk_items(fs.drop_last()) + seq![','] + spec_bulk_item(fs.last())
    }
}

/// The whole JSON body of a bulk file update.
pub open spec fn spec_bulk_body(fs: Seq<FileUpdate>) -> Seq<char> {
    "{\"data\":["@ + spec_bulk_items(fs) + "]}"@
}

/// Validate a bulk file update and build its JSON body. A single
/// empty description fails the whole call before any network
/// request.
#[verifier::loop_isolation(false)]
pub fn update_files_bulk_body(files: &Vec<FileUpdate>) -> (r: Result<String, Error>)
    ensures
        (exists|i: int| 0 <= i < files@.len() && (#[trigger] files@[i]).description@.len() == 0)
            ==> (r matches Err(e) && e matches Error::MissingDescription),
        (forall|i: int| 0 <= i < files@.len() ==> (#[trigger] files@[i]).description@.len() > 0)
            ==> (r matches Ok(s) && s@ == spec_bulk_body(files@)),
{
    let n = files.len();
    let mut i: usize = 0;
    while i < n
        invariant
            i <= n,
            n == files@.len(),
            forall|j: int| 0 <= j < i ==> (#[trigger] files@[j]).description@.len() > 0,
        decreases n - i,
    {
        if files[i].description.as_str().unicode_len() == 0 {
            return Err(Error::MissingDescription);
        }
        i = i + 1;
    }
    let mut out: Vec<char> = Vec::new();
    push_str_chars(&mut out, "{\"data\":[");
    let mut k: usize = 0;
    while k < n
        invariant
            k <= n,
            n == files@.len(),
            out@ == "{\"data\":["@ + spec_bulk_items(files@.take(k as int)),
        decreases n - k,
    {
        if k > 0 {
            out.push(',');
        }
        push_str_chars(&mut out, "{\"id\":\"");
        push_escaped(files[k].id.as_str(), &mut out);
        push_str_chars(&mut out, "\",\"description\":\"");
        push_escaped(files[k].description.as_str(), &mut out);
        push_str_chars(&mut out, "\"}");
        proof {
            assert(files@.take(k + 1).drop_last() =~= files@.take(k as int));
            assert(files@.take(k + 1).last() == files@[k as int]);
            assert(out@ =~= "{\"data\":["@ + spec_bulk_items(files@.take(k + 1)));
        }
        k = k + 1;
    }
    push_str_chars(&mut out, "]}");
    proof {
        assert(files@.take(n as int) =~= files@);
        assert(out@ =~= spec_bulk_body(files@));
    }
    Ok(chars_to_string(&out))
}

// ---- Response interpretation ----

/// The `success` and `message` fields of a completed-operation
/// envelope.
pub open spec fn spec_cr_fields(v: JsonValue) -> Result<
    (bool, Option<Seq<char>>),
    (Seq<char>, DecodeErrorKind),
> {
    match v {
        JsonValue::Object(o) => match spec_val_bool_text(spec_obj_get(o@, "success"@), "success"@) {
            Err(e) => Err(e),
            Ok(s) => match spec_val_opt_str(spec_obj_get(o@, "message"@), "message"@) {
                Err(e) => Err(e),
                Ok(m) => Ok((s, m)),
            },
        },
        _ => Err(("response"@, DecodeErrorKind::WrongType)),
    }
}

/// Interpret a completed-operation envelope: a `false` success value
/// is a failure even on a successful HTTP exchange.
pub fn interpret_completed(v: &JsonValue) -> (r: Result<Option<String>, Error>)
    ensures
        spec_cr_fields(*v) matches Ok(f) ==> (f.0 ==> (r matches Ok(m) && view_opt_str(m)
            == f.1)),
        spec_cr_fields(*v) matches Ok(f) ==> (!f.0 ==> (r matches Err(e) && e
            matches Error::ApiOperationFailed)),
        spec_cr_fields(*v) matches Err(g) ==> (r matches Err(e) && e matches Error::Decode(d)
            && d.field@ == g.0 && d.kind == g.1),
{
    let o = match v {
        JsonValue::Object(o) => o,
        _ => {
            return Err(
                Error::Decode(
                    DecodeError {
                        field: String::from_str("response"),
                        kind: DecodeErrorKind::WrongType,
                    },
                ),
            );
        },
    };
    let success = match field_bool_text(o, "success") {
        Ok(s) => s,
        Err(e) => {
            return Err(Error::Decode(e));
        },
    };
    let message = match field_opt_str(o, "message") {
        Ok(m) => m,
        Err(e) => {
            return Err(Error::Decode(e));
        },
    };
    if !success {
        return Err(Error::ApiOperationFailed);
    }
    Ok(message)
}

/// Interpret the response of the favorite toggle: the result is
/// drawn from the response's free-text message, and exactly two
/// messages are recognized.
pub fn interpret_favorite(v: &JsonValue) -> (r: Result<bool, Error>)
    ensures
        spec_cr_fields(*v) matches Err(g) ==> (r matches Err(e) && e matches Error::Decode(d)
            && d.field@ == g.0 && d.kind == g.1),
        spec_cr_fields(*v) matches Ok(f) ==> (!f.0 ==> (r matches Err(e) && e
            matches Error::ApiOperationFailed)),
        spec_cr_fields(*v) matches Ok(f) ==> ((f.0 && f.1 is None) ==> (r matches Err(e) && e
            matches Error::ApiResponseMissingMessage)),
        spec_cr_fields(*v) matches Ok(f) ==> (f.1 matches Some(m) ==> ((f.0 && m
            == "Favorite added."@) ==> (r matches Ok(b) && b == true))),
        spec_cr_fields(*v) matches Ok(f) ==> (f.1 matches Some(m) ==> ((f.0 && m
            == "Favorite removed."@) ==> (r matches Ok(b) && b == false))),
        spec_cr_fields(*v) matches Ok(f) ==> (f.1 matches Some(m) ==> ((f.0 && m
            != "Favorite added."@ && m != "Favorite removed."@) ==> (r matches Err(e) && e
            matches Error::ApiResponseUnknownMessage { message } && message@ == m))),
{
    let message = match interpret_completed(v) {
        Ok(m) => m,
        Err(e) => {
            return Err(e);
        },
    };
    let message = match message {
        Some(m) => m,
        None => {
            return Err(Error::ApiResponseMissingMessage);
        },
    };
    proof {
        reveal_strlit("Favorite added.");
        reveal_strlit("Favorite removed.");
        assert("Favorite added."@.len() == 15);
        assert("Favorite removed."@.len() == 17);
    }
    if str_eq(message.as_str(), "Favorite added.") {
        Ok(true)
    } else if str_eq(message.as_str(), "Favorite removed.") {
        Ok(false)
    } else {
        Err(Error::ApiResponseUnknownMessage { message })
    }
}

/// The `data` field of a response envelope.
pub open spec fn spec_data_field(v: JsonValue) -> Result<JsonValue, (Seq<char>, DecodeErrorKind)> {
    match v {
        JsonValue::Object(o) => match spec_obj_get(o@, "data"@) {
            Some(d) => Ok(d),
            None => Err(("data"@, DecodeErrorKind::Missing)),
        },
        _ => Err(("response"@, DecodeErrorKind::WrongType)),
    }
}

/// Interpret a `{"data": ...}` envelope holding one post.
pub fn interpret_post_response(v: JsonValue) -> (r: Result<Post, Error>)
    ensures
        spec_data_field(v) matches Err(g) ==> (r matches Err(e) && e matches Error::Decode(d)
            && d.field@ == g.0 && d.kind == g.1),
        spec_data_field(v) matches Ok(dv) ==> (spec_decode_post(dv) matches Ok(pv) ==> (r
            matches Ok(p) && p@ == pv)),
        spec_data_field(v) matches Ok(dv) ==> (spec_decode_post(dv) matches Err(g) ==> (r
            matches Err(e) && e matches Error::Decode(d) && d.field@ == g.0 && d.kind == g.1)),
{
    let d = match data_field(v) {
        Ok(d) => d,
        Err(e) => {
            return Err(e);
        },
    };
    match decode_post(&d) {
        Ok(p) => Ok(p),
        Err(e) => Err(Error::Decode(e)),
    }
}

/// Interpret a `{"data": ...}` envelope holding one file.
pub fn interpret_file_response(v: JsonValue) -> (r: Result<PostFile, Error>)
    ensures
        spec_data_field(v) matches Err(g) ==> (r matches Err(e) && e matches Error::Decode(d)
            && d.field@ == g.0 && d.kind == g.1),
        spec_data_field(v) matches Ok(dv) ==> (spec_decode_file(dv) matches Ok(fv) ==> (r
            matches Ok(f) && f@ == fv)),
        spec_data_field(v) matches Ok(dv) ==> (spec_decode_file(dv) matches Err(g) ==> (r
            matches Err(e) && e matches Error::Decode(d) && d.field@ == g.0 && d.kind == g.1)),
{
    let d = match data_field(v) {
        Ok(d) => d,
        Err(e) => {
            return Err(e);
        },
    };
    match decode_file(&d) {
        Ok(f) => Ok(f),
        Err(e) => Err(Error::Decode(e)),
    }
}

/// Interpret a `{"data": ...}` envelope holding one user.
pub fn interpret_user_response(v: JsonValue) -> (r: Result<User, Error>)
    ensures
        spec_data_field(v) matches Err(g) ==> (r matches Err(e) && e matches Error::Decode(d)
            && d.field@ == g.0 && d.kind == g.1),
        spec_data_field(v) matches Ok(dv) ==> (spec_decode_user(dv) matches Ok(uv) ==> (r
            matches Ok(u) && u@ == uv)),
        spec_data_field(v) matches Ok(dv) ==> (spec_decode_user(dv) matches Err(g) ==> (r
            matches Err(e) && e matches Error::Decode(d) && d.field@ == g.0 && d.kind == g.1)),
{
    let d = match data_field(v) {
        Ok(d) => d,
        Err(e) => {
            return Err(e);
        },
    };
    match decode_user(&d) {
        Ok(u) => Ok(u),
        Err(e) => Err(Error::Decode(e)),
    }
}

/// Interpret a `{"data": [...]}` envelope holding a post listing.
pub fn interpret_list_posts_response(v: JsonValue) -> (r: Result<Vec<ListPostsPost>, Error>)
    ensures
        spec_data_field(v) matches Err(g) ==> (r matches Err(e) && e matches Error::Decode(d)
            && d.field@ == g.0 && d.kind == g.1),
        spec_data_field(v) matches Ok(dv) ==> (!(dv matches JsonValue::Array(_)) ==> (r
            matches Err(e) && e matches Error::Decode(d) && d.field@ == "data"@ && d.kind
            == DecodeErrorKind::WrongType)),
        spec_data_field(v) matches Ok(dv) ==> (dv matches JsonValue::Array(a) ==> (
        match spec_decode_list_posts(a@) {
            Ok(pvs) => r matches Ok(ps) && ps@.map_values(|p: ListPostsPost| p@) == pvs,
            Err(g) => r matches Err(e) && e matches Error::Decode(d) && d.field@ == g.0 && d.kind
                == g.1,
        })),
{
    let d = match data_field(v) {
        Ok(d) => d,
        Err(e) => {
            return Err(e);
        },
    };
    let a = match d {
        JsonValue::Array(a) => a,
        _ => {
            return Err(
                Error::Decode(
                    DecodeError {
                        field: String::from_str("data"),
                        kind: DecodeErrorKind::WrongType,
                    },
                ),
            );
        },
    };
    match decode_list_posts(a) {
        Ok(ps) => Ok(ps),
        Err(e) => Err(Error::Decode(e)),
    }
}

/// Interpret a `{"data": [...]}` envelope holding a file list, as
/// the bulk file update answers with.
pub fn interpret_files_response(v: JsonValue) -> (r: Result<Vec<PostFile>, Error>)
    ensures
        spec_data_field(v) matches Err(g) ==> (r matches Err(e) && e matches Error::Decode(d)
            && d.field@ == g.0 && d.kind == g.1),
        spec_data_field(v) matches Ok(dv) ==> (!(dv matches JsonValue::Array(_)) ==> (r
            matches Err(e) && e matches Error::Decode(d) && d.field@ == "data"@ && d.kind
            == DecodeErrorKind::WrongType)),
        spec_data_field(v) matches Ok(dv) ==> (dv matches JsonValue::Array(a) ==> (
        match spec_decode_files(a@) {
            Ok(fvs) => r matches Ok(fs) && fs@.map_values(|f: PostFile| f@) == fvs,
            Err(g) => r matches Err(e) && e matches Error::Decode(d) && d.field@ == g.0 && d.kind
                == g.1,
        })),
{
    let d = match data_field(v) {
        Ok(d) => d,
        Err(e) => {
            return Err(e);
        },
    };
    let a = match d {
        JsonValue::Array(a) => a,
        _ => {
            return Err(
                Error::Decode(
                    DecodeError {
                        field: String::from_str("data"),
                        kind: DecodeErrorKind::WrongType,
                    },
                ),
            );
        },
    };
    match decode_files(&a) {
        Ok(fs) => Ok(fs),
        Err(e) => Err(Error::Decode(e)),
    }
}

/// Take the `data` field out of a response envelope.
fn data_field(v: JsonValue) -> (r: Result<JsonValue, Error>)
    ensures
        spec_data_field(v) matches Ok(dv) ==> (r matches Ok(d) && d == dv),
        spec_data_field(v) matches Err(g) ==> (r matches Err(e) && e matches Error::Decode(d)
            && d.field@ == g.0 && d.kind == g.1),
{
    let o = match v {
        JsonValue::Object(o) => o,
        _ => {
            return Err(
                Error::Decode(
                    DecodeError {
                        field: String::from_str("response"),
                        kind: DecodeErrorKind::WrongType,
                    },
                ),
            );
        },
    };
    match take_field(o, "data") {
        Some(d) => Ok(d),
        None => Err(
            Error::Decode(
                DecodeError { field: String::from_str("data"), kind: DecodeErrorKind::Missing },
            ),
        ),
    }
}

// ---- Whole-body interpretation ----
//
// Each of these parses the body text and hands the parsed value to
// the exact interpreter above; a body that is not JSON at all fails
// with the parser's error. The exact field-level contracts live on
// the interpreters; the contracts here tie text to interpretation
// on the inputs the parser's own contract pins (the canonical
// scalar texts), and bound the error kinds everywhere else.

/// Interpret the body of a post-returning exchange.
pub fn post_from_body(body: &str) -> (r: Result<Post, Error>)
    ensures
        (body@ == "null"@ || body@ == "true"@ || body@ == "false"@) ==> (r matches Err(e) && e
            matches Error::Decode(d) && d.field@ == "response"@ && d.kind
            == DecodeErrorKind::WrongType),
        r matches Err(e) ==> (e matches Error::InvalidJson(_) || e matches Error::Decode(_)),
{
    match parse_json(body) {
        Ok(v) => interpret_post_response(v),
        Err(e) => Err(Error::InvalidJson(e)),
    }
}

/// Interpret the body of a file-returning exchange.
pub fn file_from_body(body: &str) -> (r: Result<PostFile, Error>)
    ensures
        (body@ == "null"@ || body@ == "true"@ || body@ == "false"@) ==> (r matches Err(e) && e
            matches Error::Decode(d) && d.field@ == "response"@ && d.kind
            == DecodeErrorKind::WrongType),
        r matches Err(e) ==> (e matches Error::InvalidJson(_) || e matches Error::Decode(_)),
{
    match parse_json(body) {
        Ok(v) => interpret_file_response(v),
        Err(e) => Err(Error::InvalidJson(e)),
    }
}

/// Interpret the body of a user-returning exchange.
pub fn user_from_body(body: &str) -> (r: Result<User, Error>)
    ensures
        (body@ == "null"@ || body@ == "true"@ || body@ == "false"@) ==> (r matches Err(e) && e
            matches Error::Decode(d) && d.field@ == "response"@ && d.kind
            == DecodeErrorKind::WrongType),
        r matches Err(e) ==> (e matches Error::InvalidJson(_) || e matches Error::Decode(_)),
{
    match parse_json(body) {
        Ok(v) => interpret_user_response(v),
        Err(e) => Err(Error::InvalidJson(e)),
    }
}

/// Interpret the body of a bulk file update exchange.
pub fn files_from_body(body: &str) -> (r: Result<Vec<PostFile>, Error>)
    ensures
        (body@ == "null"@ || body@ == "true"@ || body@ == "false"@) ==> (r matches Err(e) && e
            matches Error::Decode(d) && d.field@ == "response"@ && d.kind
            == DecodeErrorKind::WrongType),
        r matches Err(e) ==> (e matches Error::InvalidJson(_) || e matches Error::Decode(_)),
{
    match parse_json(body) {
        Ok(v) => interpret_files_response(v),
        Err(e) => Err(Error::InvalidJson(e)),
    }
}

/// Interpret the body of a listing exchange.
pub fn list_posts_from_body(body: &str) -> (r: Result<Vec<ListPostsPost>, Error>)
    ensures
        (body@ == "null"@ || body@ == "true"@ || body@ == "false"@) ==> (r matches Err(e) && e
            matches Error::Decode(d) && d.field@ == "response"@ && d.kind
            == DecodeErrorKind::WrongType),
        r matches Err(e) ==> (e matches Error::InvalidJson(_) || e matches Error::Decode(_)),
{
    match parse_json(body) {
        Ok(v) => interpret_list_posts_response(v),
        Err(e) => Err(Error::InvalidJson(e)),
    }
}

/// Interpret the body of a completed-operation exchange.
pub fn completed_from_body(body: &str) -> (r: Result<Option<String>, Error>)
    ensures
        (body@ == "null"@ || body@ == "true"@ || body@ == "false"@) ==> (r matches Err(e) && e
            matches Error::Decode(d) && d.field@ == "response"@ && d.kind
            == DecodeErrorKind::WrongType),
        r matches Err(e) ==> (e matches Error::InvalidJson(_) || e matches Error::Decode(_) || e
            matches Error::ApiOperationFailed),
{
    match parse_json(body) {
        Ok(v) => interpret_completed(&v),
        Err(e) => Err(Error::InvalidJson(e)),
    }
}

/// Interpret the body of a favorite-toggle exchange.
pub fn favorite_from_body(body: &str) -> (r: Result<bool, Error>)
    ensures
        (body@ == "null"@ || body@ == "true"@ || body@ == "false"@) ==> (r matches Err(e) && e
            matches Error::Decode(d) && d.field@ == "response"@ && d.kind
            == DecodeErrorKind::WrongType),
        r matches Err(e) ==> (e matches Error::InvalidJson(_) || e matches Error::Decode(_) || e
            matches Error::ApiOperationFailed || e matches Error::ApiResponseMissingMessage || e
            matches Error::ApiResponseUnknownMessage { .. }),
{
    match parse_json(body) {
        Ok(v) => interpret_favorite(&v),
        Err(e) => Err(Error::InvalidJson(e)),
    }
}


// ---- Authenticated operation openings ----
//
// Every operation runs validate, then authenticate, then rate-limit,
// then send. These openings fix the first two steps in that order:
// an invalid request is rejected even when no credentials are set,
// and the missing token is reported only for a request that would
// otherwise go out.

/// Open a create-post operation: validate first, then require the
/// token, and hand back the token with the built form.
pub fn begin_create_post(token: Option<String>, data: CreatePostBuilder) -> (r: Result<
    (String, Vec<(String, String)>, Vec<UploadPostFile>),
    Error,
>)
    ensures
        spec_title_too_short(data.title) ==> (r matches Err(e) && e matches Error::TitleTooShort),
        !spec_title_too_short(data.title) && data.images@.len() == 0 ==> (r matches Err(e)
            && e matches Error::MissingImages),
        !spec_title_too_short(data.title) && data.images@.len() > 0 && token is None ==> (r
            matches Err(e) && e matches Error::MissingToken),
        !spec_title_too_short(data.title) && data.images@.len() > 0 ==> (token matches Some(t)
            ==> (r matches Ok(p) && p.0 == t && p.1@.map_values(
            |pr: (String, String)| (pr.0@, pr.1@),
        ) == spec_create_post_pairs(data) && p.2 == data.images)),
{
    let (pairs, images) = match create_post_form(data) {
        Ok(p) => p,
        Err(e) => {
            return Err(e);
        },
    };
    let t = match token {
        Some(t) => t,
        None => {
            return Err(Error::MissingToken);
        },
    };
    Ok((t, pairs, images))
}

/// Open an update-post operation: validate first, then require the
/// token.
pub fn begin_update_post(token: Option<String>, data: UpdatePostBuilder) -> (r: Result<
    (String, Vec<(String, String)>),
    Error,
>)
    ensures
        spec_title_too_short(data.title) ==> (r matches Err(e) && e matches Error::TitleTooShort),
        !spec_title_too_short(data.title) && token is None ==> (r matches Err(e) && e
            matches Error::MissingToken),
        !spec_title_too_short(data.title) ==> (token matches Some(t) ==> (r matches Ok(p) && p.0
            == t && p.1@.map_values(|pr: (String, String)| (pr.0@, pr.1@))
            == spec_update_post_pairs(data))),
{
    let pairs = match update_post_form(data) {
        Ok(p) => p,
        Err(e) => {
            return Err(e);
        },
    };
    let t = match token {
        Some(t) => t,
        None => {
            return Err(Error::MissingToken);
        },
    };
    Ok((t, pairs))
}

/// Open an add-images operation: validate first, then require the
/// token.
pub fn begin_add_post_images(token: Option<String>, images: Vec<UploadPostFile>) -> (r: Result<
    (String, Vec<UploadPostFile>),
    Error,
>)
    ensures
        images@.len() == 0 ==> (r matches Err(e) && e matches Error::MissingImages),
        images@.len() > 0 && token is None ==> (r matches Err(e) && e
            matches Error::MissingToken),
        images@.len() > 0 ==> (token matches Some(t) ==> (r matches Ok(p) && p.0 == t && p.1
            == images)),
{
    let images = match add_post_images_form(images) {
        Ok(v) => v,
        Err(e) => {
            return Err(e);
        },
    };
    let t = match token {
        Some(t) => t,
        None => {
            return Err(Error::MissingToken);
        },
    };
    Ok((t, images))
}

/// Open a file-update operation: validate first, then require the
/// token.
pub fn begin_update_file(token: Option<String>, description: &str) -> (r: Result<
    (String, Vec<(String, String)>),
    Error,
>)
    ensures
        description@.len() == 0 ==> (r matches Err(e) && e matches Error::MissingDescription),
        description@.len() > 0 && token is None ==> (r matches Err(e) && e
            matches Error::MissingToken),
        description@.len() > 0 ==> (token matches Some(t) ==> (r matches Ok(p) && p.0 == t
            && p.1@.map_values(|pr: (String, String)| (pr.0@, pr.1@)) == seq![
            ("description"@, description@),
        ])),
{
    let pairs = match update_file_form(description) {
        Ok(p) => p,
        Err(e) => {
            return Err(e);
        },
    };
    let t = match token {
        Some(t) => t,
        None => {
            return Err(Error::MissingToken);
        },
    };
    Ok((t, pairs))
}

/// Open a bulk file update: validate every description first, then
/// require the token, and hand back the token with the JSON body.
pub fn begin_update_files_bulk(token: Option<String>, files: &Vec<FileUpdate>) -> (r: Result<
    (String, String),
    Error,
>)
    ensures
        (exists|i: int| 0 <= i < files@.len() && (#[trigger] files@[i]).description@.len() == 0)
            ==> (r matches Err(e) && e matches Error::MissingDescription),
        (forall|i: int| 0 <= i < files@.len() ==> (#[trigger] files@[i]).description@.len() > 0)
            && token is None ==> (r matches Err(e) && e matches Error::MissingToken),
        (forall|i: int| 0 <= i < files@.len() ==> (#[trigger] files@[i]).description@.len() > 0)
            ==> (token matches Some(t) ==> (r matches Ok(p) && p.0 == t && p.1@
            == spec_bulk_body(files@))),
{
    let body = match update_files_bulk_body(files) {
        Ok(b) => b,
        Err(e) => {
            return Err(e);
        },
    };
    let t = match token {
        Some(t) => t,
        None => {
            return Err(Error::MissingToken);
        },
    };
    Ok((t, body))
}

fn bool_word(b: bool) -> (s: &'static str)
    ensures
        s@ == spec_bool_str(b),
{
    crate::text::bool_to_str(b)
}

} // verus!
