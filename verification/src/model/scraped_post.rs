//! A post as scraped from its HTML page, usable without a token.
//!
//! The initial scrape yields only the files rendered on first page
//! load, together with a page-scoped anti-forgery token; a follow-up
//! "load all" call with that token yields the remaining files.

use crate::codec::field_opt_str;
use crate::codec::field_str;
use crate::codec::spec_val_opt_str;
use crate::codec::spec_val_str;
use crate::codec::view_opt_str;
use crate::codec::DecodeError;
use crate::codec::DecodeErrorKind;
use crate::json::obj_get;
use crate::json::spec_obj_get;
use crate::json::JsonValue;
use crate::model::scraped_user::spec_get_object;
use vstd::prelude::*;

verus! {

/// One file of a scraped post.
#[derive(Debug, Clone)]
pub struct File {
    /// The id of the file.
    pub id: String,
    /// The file description; the page writes "none" as an absent,
    /// null or empty value.
    pub description: Option<String>,
    /// The link to the image file.
    pub link: String,
    /// The link to the video form of the file, if it is animated.
    pub video_link: Option<String>,
}

/// The abstract value of a [`File`].
pub struct FileView {
    pub id: Seq<char>,
    pub description: Option<Seq<char>>,
    pub link: Seq<char>,
    pub video_link: Option<Seq<char>>,
}

impl View for File {
    type V = FileView;

    open spec fn view(&self) -> FileView {
        FileView {
            id: self.id@,
            description: view_opt_str(self.description),
            link: self.link@,
            video_link: view_opt_str(self.video_link),
        }
    }
}

/// An optional description: absent, null and the empty string all
/// mean "none".
pub open spec fn spec_val_opt_desc(vo: Option<JsonValue>, name: Seq<char>) -> Result<
    Option<Seq<char>>,
    (Seq<char>, DecodeErrorKind),
> {
    match spec_val_opt_str(vo, name) {
        Err(e) => Err(e),
        Ok(Some(s)) => if s.len() == 0 {
            Ok(None)
        } else {
            Ok(Some(s))
        },
        Ok(None) => Ok(None),
    }
}

/// How one scraped file decodes from its JSON object.
pub open spec fn spec_decode_scraped_file(v: JsonValue) -> Result<
    FileView,
    (Seq<char>, DecodeErrorKind),
> {
    match v {
        JsonValue::Object(o) => match spec_val_str(spec_obj_get(o@, "id"@), "id"@) {
            Err(e) => Err(e),
            Ok(id) => match spec_val_opt_desc(spec_obj_get(o@, "description"@), "description"@) {
                Err(e) => Err(e),
                Ok(description) => match spec_val_str(spec_obj_get(o@, "link"@), "link"@) {
                    Err(e) => Err(e),
                    Ok(link) => match spec_val_opt_str(
                        spec_obj_get(o@, "video_link"@),
                        "video_link"@,
                    ) {
                        Err(e) => Err(e),
                        Ok(video_link) => Ok(FileView { id, description, link, video_link }),
                    },
                },
            },
        },
        _ => Err(("file"@, DecodeErrorKind::WrongType)),
    }
}

/// Decode one scraped file record.
pub fn decode_scraped_file(v: &JsonValue) -> (r: Result<File, DecodeError>)
    ensures
        r matches Ok(f) ==> spec_decode_scraped_file(*v) matches Ok(fv) && f@ == fv,
        r matches Err(e) ==> spec_decode_scraped_file(*v) matches Err(g) && e.field@ == g.0
            && e.kind == g.1,
{
    let o = match v {
        JsonValue::Object(o) => o,
        _ => {
            return Err(
                DecodeError { field: str_string("file"), kind: DecodeErrorKind::WrongType },
            );
        },
    };
    let id = match field_str(o, "id") {
        Ok(x) => x,
        Err(e) => {
            return Err(e);
        },
    };
    let description = match field_opt_str(o, "description") {
        Ok(x) => match x {
            Some(s) => {
                if s.as_str().unicode_len() == 0 {
                    None
                } else {
                    Some(s)
                }
            },
            None => None,
        },
        Err(e) => {
            return Err(e);
        },
    };
    let link = match field_str(o, "link") {
        Ok(x) => x,
        Err(e) => {
            return Err(e);
        },
    };
    let video_link = match field_opt_str(o, "video_link") {
        Ok(x) => x,
        Err(e) => {
            return Err(e);
        },
    };
    Ok(File { id, description, link, video_link })
}

/// A post scraped from HTML.
#[derive(Debug, Clone)]
pub struct ScrapedPost {
    /// The post id.
    pub id: String,
    /// The post title.
    pub title: String,
    /// The post author's username.
    pub username: String,
    /// The page-scoped anti-forgery token needed to load the
    /// remaining files of a large post.
    pub token: String,
    /// The files rendered on first page load, in display order.
    pub files: Vec<File>,
}

/// The abstract value of a [`ScrapedPost`].
pub struct ScrapedPostView {
    pub id: Seq<char>,
    pub title: Seq<char>,
    pub username: Seq<char>,
    pub token: Seq<char>,
    pub files: Seq<FileView>,
}

impl View for ScrapedPost {
    type V = ScrapedPostView;

    open spec fn view(&self) -> ScrapedPostView {
        ScrapedPostView {
            id: self.id@,
            title: self.title@,
            username: self.username@,
            token: self.token@,
            files: self.files@.map_values(|f: File| f@),
        }
    }
}

/// How the file list of a scraped post decodes, element by element;
/// the first failing element fails the whole list.
pub open spec fn spec_decode_scraped_files(a: Seq<JsonValue>) -> Result<
    Seq<FileView>,
    (Seq<char>, DecodeErrorKind),
>
    decreases a.len(),
{
    if a.len() == 0 {
        Ok(Seq::empty())
    } else {
        match spec_decode_scraped_files(a.drop_last()) {
            Err(e) => Err(e),
            Ok(pre) => match spec_decode_scraped_file(a.last()) {
                Err(e) => Err(e),
                Ok(f) => Ok(pre.push(f)),
            },
        }
    }
}

/// Decode the file list of a scraped post.
#[verifier::loop_isolation(false)]
pub fn decode_scraped_files(a: &Vec<JsonValue>) -> (r: Result<Vec<File>, DecodeError>)
    ensures
        r matches Ok(fs) ==> spec_decode_scraped_files(a@) matches Ok(fvs) && fs@.map_values(
            |f: File| f@,
        ) == fvs,
        r matches Err(e) ==> spec_decode_scraped_files(a@) matches Err(g) && e.field@ == g.0
            && e.kind == g.1,
{
    let mut files: Vec<File> = Vec::new();
    let n = a.len();
    let mut i: usize = 0;
    proof {
        assert(a@.take(0) =~= Seq::<JsonValue>::empty());
        assert(files@.map_values(|f: File| f@) =~= Seq::<FileView>::empty());
    }
    while i < n
        invariant
            i <= n,
            spec_decode_scraped_files(a@.take(i as int)) == Ok::<Seq<FileView>, (Seq<char>,
                DecodeErrorKind,
            )>(files@.map_values(|f: File| f@)),
        decreases n - i,
    {
        let fi = match decode_scraped_file(&a[i]) {
            Ok(fi) => fi,
            Err(e) => {
                proof {
                    assert(a@.take(i + 1).drop_last() =~= a@.take(i as int));
                    assert(a@.take(i + 1).last() == a@[i as int]);
                    lemma_scraped_files_error_extends(
                        a@,
                        i + 1,
                        spec_decode_scraped_file(a@[i as int])->Err_0,
                    );
                }
                return Err(e);
            },
        };
        let ghost pre = files@;
        files.push(fi);
        proof {
            assert(files@ == pre.push(fi));
            assert(files@.map_values(|f: File| f@) =~= pre.map_values(|f: File| f@).push(fi@));
            assert(a@.take(i + 1).drop_last() =~= a@.take(i as int));
            assert(a@.take(i + 1).last() == a@[i as int]);
        }
        i = i + 1;
    }
    proof {
        assert(a@.take(n as int) =~= a@);
    }
    Ok(files)
}

/// An error of a prefix is the error of every extension of it.
proof fn lemma_scraped_files_error_extends(
    a: Seq<JsonValue>,
    k: int,
    e: (Seq<char>, DecodeErrorKind),
)
    requires
        0 <= k <= a.len(),
        spec_decode_scraped_files(a.take(k)) == Err::<Seq<FileView>, (Seq<char>, DecodeErrorKind)>(
            e,
        ),
    ensures
        spec_decode_scraped_files(a) == Err::<Seq<FileView>, (Seq<char>, DecodeErrorKind)>(e),
    decreases a.len() - k,
{
    if k == a.len() {
        assert(a.take(k) =~= a);
    } else {
        assert(a.take(k + 1).drop_last() =~= a.take(k));
        lemma_scraped_files_error_extends(a, k + 1, e);
    }
}

/// How a scraped post decodes from a whole data-page payload: the
/// `props.post` object holds the post and `props.csrf_token` the
/// page token.
pub open spec fn spec_decode_scraped_post(v: JsonValue) -> Result<
    ScrapedPostView,
    (Seq<char>, DecodeErrorKind),
> {
    match v {
        JsonValue::Object(top) => match spec_get_object(spec_obj_get(top@, "props"@), "props"@) {
            Err(e) => Err(e),
            Ok(props) => match spec_val_str(spec_obj_get(props, "csrf_token"@), "csrf_token"@) {
                Err(e) => Err(e),
                Ok(token) => match spec_get_object(spec_obj_get(props, "post"@), "post"@) {
                    Err(e) => Err(e),
                    Ok(post) => match spec_val_str(spec_obj_get(post, "id"@), "id"@) {
                        Err(e) => Err(e),
                        Ok(id) => match spec_val_str(spec_obj_get(post, "title"@), "title"@) {
                            Err(e) => Err(e),
                            Ok(title) => match spec_val_str(
                                spec_obj_get(post, "username"@),
                                "username"@,
                            ) {
                                Err(e) => Err(e),
                                Ok(username) => match spec_decode_post_files(
                                    spec_obj_get(post, "files"@),
                                ) {
                                    Err(e) => Err(e),
                                    Ok(files) => Ok(
                                        ScrapedPostView { id, title, username, token, files },
                                    ),
                                },
                            },
                        },
                    },
                },
            },
        },
        _ => Err(("page"@, DecodeErrorKind::WrongType)),
    }
}

/// How the `files` field of a scraped post decodes.
pub open spec fn spec_decode_post_files(vo: Option<JsonValue>) -> Result<
    Seq<FileView>,
    (Seq<char>, DecodeErrorKind),
> {
    match vo {
        Option::None => Err(("files"@, DecodeErrorKind::Missing)),
        Option::Some(JsonValue::Array(a)) => spec_decode_scraped_files(a@),
        Option::Some(_) => Err(("files"@, DecodeErrorKind::WrongType)),
    }
}

/// Decode a scraped post from a parsed data-page payload.
pub fn scraped_post_from_data_page(v: &JsonValue) -> (r: Result<ScrapedPost, DecodeError>)
    ensures
        r matches Ok(p) ==> spec_decode_scraped_post(*v) matches Ok(pv) && p@ == pv,
        r matches Err(e) ==> spec_decode_scraped_post(*v) matches Err(g) && e.field@ == g.0
            && e.kind == g.1,
{
    let top = match v {
        JsonValue::Object(o) => o,
        _ => {
            return Err(
                DecodeError { field: str_string("page"), kind: DecodeErrorKind::WrongType },
            );
        },
    };
    let props = match obj_get(top, "props") {
        Some(pv) => match pv {
            JsonValue::Object(p) => p,
            _ => {
                return Err(
                    DecodeError { field: str_string("props"), kind: DecodeErrorKind::WrongType },
                );
            },
        },
        None => {
            return Err(
                DecodeError { field: str_string("props"), kind: DecodeErrorKind::Missing },
            );
        },
    };
    let token = match field_str(props, "csrf_token") {
        Ok(x) => x,
        Err(e) => {
            return Err(e);
        },
    };
    let post = match obj_get(props, "post") {
        Some(pv) => match pv {
            JsonValue::Object(p) => p,
            _ => {
                return Err(
                    DecodeError { field: str_string("post"), kind: DecodeErrorKind::WrongType },
                );
            },
        },
        None => {
            return Err(DecodeError { field: str_string("post"), kind: DecodeErrorKind::Missing });
        },
    };
    let id = match field_str(post, "id") {
        Ok(x) => x,
        Err(e) => {
            return Err(e);
        },
    };
    let title = match field_str(post, "title") {
        Ok(x) => x,
        Err(e) => {
            return Err(e);
        },
    };
    let username = match field_str(post, "username") {
        Ok(x) => x,
        Err(e) => {
            return Err(e);
        },
    };
    let files = match obj_get(post, "files") {
        Some(fv) => match fv {
            JsonValue::Array(a) => match decode_scraped_files(a) {
                Ok(fs) => fs,
                Err(e) => {
                    return Err(e);
                },
            },
            _ => {
                return Err(
                    DecodeError { field: str_string("files"), kind: DecodeErrorKind::WrongType },
                );
            },
        },
        None => {
            return Err(
                DecodeError { field: str_string("files"), kind: DecodeErrorKind::Missing },
            );
        },
    };
    Ok(ScrapedPost { id, title, username, token, files })
}

fn str_string(s: &str) -> (r: String)
    ensures
        r@ == s@,
{
    String::from_str(s)
}

} // verus!
