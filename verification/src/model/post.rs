//! The authenticated API's view of a post and of its files.

use crate::codec::field_datetime_iso;
use crate::codec::field_desc;
use crate::codec::field_i32;
use crate::codec::field_opt_str;
use crate::codec::field_pos_u32;
use crate::codec::field_str;
use crate::codec::field_u64;
use crate::codec::spec_val_datetime_iso;
use crate::codec::spec_val_desc;
use crate::codec::spec_val_i32;
use crate::codec::spec_val_opt_str;
use crate::codec::spec_val_pos_u32;
use crate::codec::spec_val_str;
use crate::codec::spec_val_u64;
use crate::codec::view_opt_str;
use crate::codec::DecodeError;
use crate::codec::DecodeErrorKind;
use crate::date::DateTime;
use crate::json::obj_get;
use crate::json::spec_obj_get;
use crate::json::JsonValue;
use vstd::prelude::*;

verus! {

/// An API file of a post.
#[derive(Debug, Clone)]
pub struct File {
    /// The id of the image.
    pub id: String,
    /// The image description; the server writes "none" as the empty
    /// string.
    pub description: Option<String>,
    /// The link to the image file.
    pub link: String,
    /// The position of the image in the post, starting at 1.
    pub position: u32,
    /// The time this image was created.
    pub created: DateTime,
    /// The original name of the image; present only for the owner.
    pub original_name: Option<String>,
}

/// The abstract value of a [`File`].
pub struct FileView {
    pub id: Seq<char>,
    pub description: Option<Seq<char>>,
    pub link: Seq<char>,
    pub position: u32,
    pub created: DateTime,
    pub original_name: Option<Seq<char>>,
}

impl View for File {
    type V = FileView;

    open spec fn view(&self) -> FileView {
        FileView {
            id: self.id@,
            description: view_opt_str(self.description),
            link: self.link@,
            position: self.position,
            created: self.created,
            original_name: view_opt_str(self.original_name),
        }
    }
}

impl File {
    /// A file's position is a positive 1-based index and its
    /// creation time is a real instant.
    pub open spec fn wf(self) -> bool {
        self.position >= 1 && self.created.wf()
    }
}

/// How a file record decodes from the members of its JSON object.
pub open spec fn spec_decode_file_obj(o: Seq<(String, JsonValue)>) -> Result<
    FileView,
    (Seq<char>, DecodeErrorKind),
> {
    match spec_val_str(spec_obj_get(o, "id"@), "id"@) {
        Err(e) => Err(e),
        Ok(id) => match spec_val_desc(spec_obj_get(o, "description"@), "description"@) {
            Err(e) => Err(e),
            Ok(description) => match spec_val_str(spec_obj_get(o, "link"@), "link"@) {
                Err(e) => Err(e),
                Ok(link) => match spec_val_pos_u32(spec_obj_get(o, "position"@), "position"@) {
                    Err(e) => Err(e),
                    Ok(position) => match spec_val_datetime_iso(
                        spec_obj_get(o, "created"@),
                        "created"@,
                    ) {
                        Err(e) => Err(e),
                        Ok(created) => match spec_val_opt_str(
                            spec_obj_get(o, "original_name"@),
                            "original_name"@,
                        ) {
                            Err(e) => Err(e),
                            Ok(original_name) => Ok(
                                FileView {
                                    id,
                                    description,
                                    link,
                                    position,
                                    created,
                                    original_name,
                                },
                            ),
                        },
                    },
                },
            },
        },
    }
}

/// How a file record decodes from a JSON value.
pub open spec fn spec_decode_file(v: JsonValue) -> Result<FileView, (Seq<char>, DecodeErrorKind)> {
    match v {
        JsonValue::Object(o) => spec_decode_file_obj(o@),
        _ => Err(("file"@, DecodeErrorKind::WrongType)),
    }
}

/// Decode one file record of a post.
pub fn decode_file(v: &JsonValue) -> (r: Result<File, DecodeError>)
    ensures
        r matches Ok(f) ==> spec_decode_file(*v) matches Ok(fv) && f@ == fv && f.wf(),
        r matches Err(e) ==> spec_decode_file(*v) matches Err(g) && e.field@ == g.0 && e.kind
            == g.1,
{
    let o = match v {
        JsonValue::Object(o) => o,
        _ => {
            return Err(
                DecodeError { field: str_string("file"), kind: DecodeErrorKind::WrongType },
            );
        },
    };
    let id = match field_str(o, "id") {
        Ok(x) => x,
        Err(e) => {
            return Err(e);
        },
    };
    let description = match field_desc(o, "description") {
        Ok(x) => x,
        Err(e) => {
            return Err(e);
        },
    };
    let link = match field_str(o, "link") {
        Ok(x) => x,
        Err(e) => {
            return Err(e);
        },
    };
    let position = match field_pos_u32(o, "position") {
        Ok(x) => x,
        Err(e) => {
            return Err(e);
        },
    };
    let created = match field_datetime_iso(o, "created") {
        Ok(x) => x,
        Err(e) => {
            return Err(e);
        },
    };
    let original_name = match field_opt_str(o, "original_name") {
        Ok(x) => x,
        Err(e) => {
            return Err(e);
        },
    };
    Ok(File { id, description, link, position, created, original_name })
}

/// An API post object.
#[derive(Debug, Clone)]
pub struct Post {
    /// The post id.
    pub id: String,
    /// The post title.
    pub title: String,
    /// The post author's username.
    pub username: String,
    /// The privacy of the post.
    pub privacy: String,
    /// The report status of the post.
    pub report_status: i32,
    /// The number of views.
    pub views: u64,
    /// The nsfw marker as the server encodes it.
    pub nsfw: i32,
    /// The number of images.
    pub image_count: u64,
    /// The time this post was created.
    pub created: DateTime,
    /// The files of this post, ordered as the server lists them.
    pub images: Vec<File>,
    /// The url to delete this post; present only for the owner.
    pub delete_url: Option<String>,
}

/// The abstract value of a [`Post`].
pub struct PostView {
    pub id: Seq<char>,
    pub title: Seq<char>,
    pub username: Seq<char>,
    pub privacy: Seq<char>,
    pub report_status: i32,
    pub views: u64,
    pub nsfw: i32,
    pub image_count: u64,
    pub created: DateTime,
    pub images: Seq<FileView>,
    pub delete_url: Option<Seq<char>>,
}

impl View for Post {
    type V = PostView;

    open spec fn view(&self) -> PostView {
        PostView {
            id: self.id@,
            title: self.title@,
            username: self.username@,
            privacy: self.privacy@,
            report_status: self.report_status,
            views: self.views,
            nsfw: self.nsfw,
            image_count: self.image_count,
            created: self.created,
            images: self.images@.map_values(|f: File| f@),
            delete_url: view_opt_str(self.delete_url),
        }
    }
}

/// How the file list of a post decodes, element by element; the
/// first failing element fails the whole list.
pub open spec fn spec_decode_files(a: Seq<JsonValue>) -> Result<
    Seq<FileView>,
    (Seq<char>, DecodeErrorKind),
>
    decreases a.len(),
{
    if a.len() == 0 {
        Ok(Seq::empty())
    } else {
        match spec_decode_files(a.drop_last()) {
            Err(e) => Err(e),
            Ok(pre) => match spec_decode_file(a.last()) {
                Err(e) => Err(e),
                Ok(f) => Ok(pre.push(f)),
            },
        }
    }
}

/// Decode the file list of a post.
#[verifier::loop_isolation(false)]
pub fn decode_files(a: &Vec<JsonValue>) -> (r: Result<Vec<File>, DecodeError>)
    ensures
        r matches Ok(fs) ==> spec_decode_files(a@) matches Ok(fvs) && fs@.map_values(
            |f: File| f@,
        ) == fvs && (forall|i: int| 0 <= i < fs@.len() ==> (#[trigger] fs@[i]).wf()),
        r matches Err(e) ==> spec_decode_files(a@) matches Err(g) && e.field@ == g.0 && e.kind
            == g.1,
{
    let mut files: Vec<File> = Vec::new();
    let n = a.len();
    let mut i: usize = 0;
    proof {
        assert(a@.take(0) =~= Seq::<JsonValue>::empty());
        assert(files@.map_values(|f: File| f@) =~= Seq::<FileView>::empty());
    }
    while i < n
        invariant
            i <= n,
            spec_decode_files(a@.take(i as int)) == Ok::<Seq<FileView>, (Seq<char>,
                DecodeErrorKind,
            )>(files@.map_values(|f: File| f@)),
            forall|j: int| 0 <= j < files@.len() ==> (#[trigger] files@[j]).wf(),
        decreases n - i,
    {
        let fi = match decode_file(&a[i]) {
            Ok(fi) => fi,
            Err(e) => {
                proof {
                    lemma_files_prefix_error(a@, i as int);
                }
                return Err(e);
            },
        };
        let ghost pre = files@;
        files.push(fi);
        proof {
            assert(files@ == pre.push(fi));
            assert(files@.map_values(|f: File| f@) =~= pre.map_values(|f: File| f@).push(fi@));
            assert(a@.take(i + 1).drop_last() =~= a@.take(i as int));
            assert(a@.take(i + 1).last() == a@[i as int]);
        }
        i = i + 1;
    }
    proof {
        assert(a@.take(n as int) =~= a@);
    }
    Ok(files)
}

/// If a prefix of the list decodes and the next element fails, the
/// whole list fails with that element's error.
proof fn lemma_files_prefix_error(a: Seq<JsonValue>, i: int)
    requires
        0 <= i < a.len(),
        spec_decode_files(a.take(i)) is Ok,
        spec_decode_file(a[i]) is Err,
    ensures
        spec_decode_files(a) == Err::<Seq<FileView>, (Seq<char>, DecodeErrorKind)>(
            spec_decode_file(a[i])->Err_0,
        ),
    decreases a.len() - i,
{
    if i == a.len() - 1 {
        assert(a.drop_last() =~= a.take(i));
        assert(a.last() == a[i]);
    } else {
        assert(a.take(i + 1).drop_last() =~= a.take(i));
        assert(a.take(i + 1).last() == a[i]);
        lemma_files_prefix_error_step(a, i);
    }
}

proof fn lemma_files_prefix_error_step(a: Seq<JsonValue>, i: int)
    requires
        0 <= i < a.len() - 1,
        spec_decode_files(a.take(i)) is Ok,
        spec_decode_file(a[i]) is Err,
    ensures
        spec_decode_files(a) == Err::<Seq<FileView>, (Seq<char>, DecodeErrorKind)>(
            spec_decode_file(a[i])->Err_0,
        ),
    decreases a.len() - i,
{
    // Walk outward from position i: every longer prefix carries the
    // same error.
    assert(a.take(i + 1).drop_last() =~= a.take(i));
    assert(a.take(i + 1).last() == a[i]);
    lemma_files_error_extends(a, i + 1, spec_decode_file(a[i])->Err_0);
}

/// An error of a prefix is the error of every extension of it.
proof fn lemma_files_error_extends(a: Seq<JsonValue>, k: int, e: (Seq<char>, DecodeErrorKind))
    requires
        0 <= k <= a.len(),
        spec_decode_files(a.take(k)) == Err::<Seq<FileView>, (Seq<char>, DecodeErrorKind)>(e),
    ensures
        spec_decode_files(a) == Err::<Seq<FileView>, (Seq<char>, DecodeErrorKind)>(e),
    decreases a.len() - k,
{
    if k == a.len() {
        assert(a.take(k) =~= a);
    } else {
        assert(a.take(k + 1).drop_last() =~= a.take(k));
        lemma_files_error_extends(a, k + 1, e);
    }
}

/// How a post decodes from the members of its JSON object.
pub open spec fn spec_decode_post_obj(o: Seq<(String, JsonValue)>) -> Result<
    PostView,
    (Seq<char>, DecodeErrorKind),
> {
    match spec_val_str(spec_obj_get(o, "id"@), "id"@) {
        Err(e) => Err(e),
        Ok(id) => match spec_val_str(spec_obj_get(o, "title"@), "title"@) {
            Err(e) => Err(e),
            Ok(title) => match spec_val_str(spec_obj_get(o, "username"@), "username"@) {
                Err(e) => Err(e),
                Ok(username) => match spec_val_str(spec_obj_get(o, "privacy"@), "privacy"@) {
                    Err(e) => Err(e),
                    Ok(privacy) => match spec_val_i32(
                        spec_obj_get(o, "report_status"@),
                        "report_status"@,
                    ) {
                        Err(e) => Err(e),
                        Ok(report_status) => match spec_val_u64(
                            spec_obj_get(o, "views"@),
                            "views"@,
                        ) {
                            Err(e) => Err(e),
                            Ok(views) => match spec_val_i32(spec_obj_get(o, "nsfw"@), "nsfw"@) {
                                Err(e) => Err(e),
                                Ok(nsfw) => match spec_val_u64(
                                    spec_obj_get(o, "image_count"@),
                                    "image_count"@,
                                ) {
                                    Err(e) => Err(e),
                                    Ok(image_count) => match spec_val_datetime_iso(
                                        spec_obj_get(o, "created"@),
                                        "created"@,
                                    ) {
                                        Err(e) => Err(e),
                                        Ok(created) => match spec_decode_images(
                                            spec_obj_get(o, "images"@),
                                        ) {
                                            Err(e) => Err(e),
                                            Ok(images) => match spec_val_opt_str(
                                                spec_obj_get(o, "delete_url"@),
                                                "delete_url"@,
                                            ) {
                                                Err(e) => Err(e),
                                                Ok(delete_url) => Ok(
                                                    PostView {
                                                        id,
                                                        title,
                                                        username,
                                                        privacy,
                                                        report_status,
                                                        views,
                                                        nsfw,
                                                        image_count,
                                                        created,
                                                        images,
                                                        delete_url,
                                                    },
                                                ),
                                            },
                                        },
                                    },
                                },
                            },
                        },
                    },
                },
            },
        },
    }
}

/// How the `images` field of a post decodes.
pub open spec fn spec_decode_images(vo: Option<JsonValue>) -> Result<
    Seq<FileView>,
    (Seq<char>, DecodeErrorKind),
> {
    match vo {
        Option::None => Err(("images"@, DecodeErrorKind::Missing)),
        Option::Some(JsonValue::Array(a)) => spec_decode_files(a@),
        Option::Some(_) => Err(("images"@, DecodeErrorKind::WrongType)),
    }
}

/// How a post decodes from a JSON value.
pub open spec fn spec_decode_post(v: JsonValue) -> Result<PostView, (Seq<char>, DecodeErrorKind)> {
    match v {
        JsonValue::Object(o) => spec_decode_post_obj(o@),
        _ => Err(("post"@, DecodeErrorKind::WrongType)),
    }
}

/// Decode an API post object.
pub fn decode_post(v: &JsonValue) -> (r: Result<Post, DecodeError>)
    ensures
        r matches Ok(p) ==> spec_decode_post(*v) matches Ok(pv) && p@ == pv && (forall|i: int|
            0 <= i < p.images@.len() ==> (#[trigger] p.images@[i]).wf()),
        r matches Err(e) ==> spec_decode_post(*v) matches Err(g) && e.field@ == g.0 && e.kind
            == g.1,
{
    let o = match v {
        JsonValue::Object(o) => o,
        _ => {
            return Err(
                DecodeError { field: str_string("post"), kind: DecodeErrorKind::WrongType },
            );
        },
    };
    let id = match field_str(o, "id") {
        Ok(x) => x,
        Err(e) => {
            return Err(e);
        },
    };
    let title = match field_str(o, "title") {
        Ok(x) => x,
        Err(e) => {
            return Err(e);
        },
    };
    let username = match field_str(o, "username") {
        Ok(x) => x,
        Err(e) => {
            return Err(e);
        },
    };
    let privacy = match field_str(o, "privacy") {
        Ok(x) => x,
        Err(e) => {
            return Err(e);
        },
    };
    let report_status = match field_i32(o, "report_status") {
        Ok(x) => x,
        Err(e) => {
            return Err(e);
        },
    };
    let views = match field_u64(o, "views") {
        Ok(x) => x,
        Err(e) => {
            return Err(e);
        },
    };
    let nsfw = match field_i32(o, "nsfw") {
        Ok(x) => x,
        Err(e) => {
            return Err(e);
        },
    };
    let image_count = match field_u64(o, "image_count") {
        Ok(x) => x,
        Err(e) => {
            return Err(e);
        },
    };
    let created = match field_datetime_iso(o, "created") {
        Ok(x) => x,
        Err(e) => {
            return Err(e);
        },
    };
    let images = match obj_get(o, "images") {
        Some(av) => match av {
            JsonValue::Array(a) => match decode_files(a) {
                Ok(fs) => fs,
                Err(e) => {
                    return Err(e);
                },
            },
            _ => {
                return Err(
                    DecodeError { field: str_string("images"), kind: DecodeErrorKind::WrongType },
                );
            },
        },
        None => {
            return Err(
                DecodeError { field: str_string("images"), kind: DecodeErrorKind::Missing },
            );
        },
    };
    let delete_url = match field_opt_str(o, "delete_url") {
        Ok(x) => x,
        Err(e) => {
            return Err(e);
        },
    };
    Ok(
        Post {
            id,
            title,
            username,
            privacy,
            report_status,
            views,
            nsfw,
            image_count,
            created,
            images,
            delete_url,
        },
    )
}

fn str_string(s: &str) -> (r: String)
    ensures
        r@ == s@,
{
    String::from_str(s)
}

} // verus!
