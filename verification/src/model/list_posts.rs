//! One row of the paginated, unauthenticated post listing.
//!
//! The listing endpoint is loosely specified, so fields the decoder
//! does not know are preserved opaquely instead of dropped.

use crate::codec::spec_val_bool_u8;
use crate::codec::spec_val_i64_permissive;
use crate::codec::spec_val_opt_str;
use crate::codec::spec_val_str;
use crate::codec::spec_val_u64;
use crate::codec::spec_val_u64_permissive;
use crate::codec::val_bool_u8;
use crate::codec::val_i64_permissive;
use crate::codec::val_opt_str;
use crate::codec::val_str;
use crate::codec::val_u64;
use crate::codec::val_u64_permissive;
use crate::codec::view_opt_str;
use crate::codec::DecodeError;
use crate::codec::DecodeErrorKind;
use crate::json::spec_obj_get;
use crate::json::JsonValue;
use crate::text::str_eq;
use vstd::prelude::*;

verus! {

broadcast use vstd::string::group_string_axioms;

/// The members of `o` whose keys the decoder does not know, in
/// order.
pub open spec fn spec_extra_members(
    o: Seq<(String, JsonValue)>,
    known: spec_fn(Seq<char>) -> bool,
) -> Seq<(String, JsonValue)>
    decreases o.len(),
{
    if o.len() == 0 {
        Seq::empty()
    } else {
        let pre = spec_extra_members(o.drop_last(), known);
        if known(o.last().0@) {
            pre
        } else {
            pre.push(o.last())
        }
    }
}

/// The keys a thumbnail object is known to carry.
pub open spec fn is_known_thumbnail_key(k: Seq<char>) -> bool {
    k == "id"@ || k == "description"@ || k == "link"@
}

/// The thumbnail object of a listing row.
#[derive(Debug)]
pub struct Thumbnail {
    /// The file id.
    pub id: String,
    /// The file description.
    pub description: Option<String>,
    /// A link to the thumbnail.
    pub link: String,
    /// Extra key values, preserved opaquely.
    pub extra: Vec<(String, JsonValue)>,
}

/// The abstract value of a [`Thumbnail`].
pub struct ThumbnailView {
    pub id: Seq<char>,
    pub description: Option<Seq<char>>,
    pub link: Seq<char>,
    pub extra: Seq<(String, JsonValue)>,
}

impl View for Thumbnail {
    type V = ThumbnailView;

    open spec fn view(&self) -> ThumbnailView {
        ThumbnailView {
            id: self.id@,
            description: view_opt_str(self.description),
            link: self.link@,
            extra: self.extra@,
        }
    }
}

/// How a thumbnail decodes from the members of its JSON object.
pub open spec fn spec_decode_thumbnail_obj(o: Seq<(String, JsonValue)>) -> Result<
    ThumbnailView,
    (Seq<char>, DecodeErrorKind),
> {
    match spec_val_str(spec_obj_get(o, "id"@), "id"@) {
        Err(e) => Err(e),
        Ok(id) => match spec_val_opt_str(spec_obj_get(o, "description"@), "description"@) {
            Err(e) => Err(e),
            Ok(description) => match spec_val_str(spec_obj_get(o, "link"@), "link"@) {
                Err(e) => Err(e),
                Ok(link) => Ok(
                    ThumbnailView {
                        id,
                        description,
                        link,
                        extra: spec_extra_members(o, |k: Seq<char>| is_known_thumbnail_key(k)),
                    },
                ),
            },
        },
    }
}

/// How a thumbnail decodes from a JSON value.
pub open spec fn spec_decode_thumbnail(v: JsonValue) -> Result<
    ThumbnailView,
    (Seq<char>, DecodeErrorKind),
> {
    match v {
        JsonValue::Object(o) => spec_decode_thumbnail_obj(o@),
        _ => Err(("thumbnail"@, DecodeErrorKind::WrongType)),
    }
}

/// Decode the thumbnail object of a listing row, keeping unknown
/// members.
#[verifier::loop_isolation(false)]
pub fn decode_thumbnail(v: JsonValue) -> (r: Result<Thumbnail, DecodeError>)
    ensures
        r matches Ok(t) ==> spec_decode_thumbnail(v) matches Ok(tv) && t@ == tv,
        r matches Err(e) ==> spec_decode_thumbnail(v) matches Err(g) && e.field@ == g.0 && e.kind
            == g.1,
{
    let mut o = match v {
        JsonValue::Object(o) => o,
        _ => {
            return Err(
                DecodeError {
                    field: str_string("thumbnail"),
                    kind: DecodeErrorKind::WrongType,
                },
            );
        },
    };
    let ghost orig = o@;
    proof {
        reveal_strlit("id");
        reveal_strlit("description");
        reveal_strlit("link");
    }
    let mut slot_id: Option<JsonValue> = None;
    let mut slot_description: Option<JsonValue> = None;
    let mut slot_link: Option<JsonValue> = None;
    let mut extra: Vec<(String, JsonValue)> = Vec::new();
    let mut k: usize = 0;
    let n0 = o.len();
    proof {
        assert(orig.take(0) =~= Seq::<(String, JsonValue)>::empty());
        assert(orig.skip(0) =~= orig);
    }
    while o.len() > 0
        invariant
            k <= orig.len(),
            k + o@.len() == n0,
            o@ == orig.skip(k as int),
            slot_id == spec_obj_get(orig.take(k as int), "id"@),
            slot_description == spec_obj_get(orig.take(k as int), "description"@),
            slot_link == spec_obj_get(orig.take(k as int), "link"@),
            extra@ == spec_extra_members(
                orig.take(k as int),
                |kk: Seq<char>| is_known_thumbnail_key(kk),
            ),
        decreases o@.len(),
    {
        let m = o.remove(0);
        proof {
            reveal_strlit("id");
            reveal_strlit("description");
            reveal_strlit("link");
            assert("id"@.len() == 2);
            assert("description"@.len() == 11);
            assert("link"@.len() == 4);
            assert(m == orig[k as int]);
            assert(orig.skip(k as int).remove(0) =~= orig.skip(k + 1));
            assert(orig.take(k + 1).drop_last() =~= orig.take(k as int));
            assert(orig.take(k + 1).last() == orig[k as int]);
        }
        let is_id = str_eq(m.0.as_str(), "id");
        let is_description = str_eq(m.0.as_str(), "description");
        let is_link = str_eq(m.0.as_str(), "link");
        if is_id {
            slot_id = Some(m.1);
        } else if is_description {
            slot_description = Some(m.1);
        } else if is_link {
            slot_link = Some(m.1);
        } else {
            extra.push(m);
        }
        k = k + 1;
    }
    proof {
        assert(orig.take(k as int) =~= orig);
    }
    let id = match val_str(slot_id, "id") {
        Ok(x) => x,
        Err(e) => {
            return Err(e);
        },
    };
    let description = match val_opt_str(slot_description, "description") {
        Ok(x) => x,
        Err(e) => {
            return Err(e);
        },
    };
    let link = match val_str(slot_link, "link") {
        Ok(x) => x,
        Err(e) => {
            return Err(e);
        },
    };
    Ok(Thumbnail { id, description, link, extra })
}

/// The keys a listing row is known to carry.
pub open spec fn is_known_list_post_key(k: Seq<char>) -> bool {
    ||| k == "id"@
    ||| k == "title"@
    ||| k == "slug"@
    ||| k == "link"@
    ||| k == "nsfw"@
    ||| k == "score"@
    ||| k == "comments"@
    ||| k == "views"@
    ||| k == "thumbnail"@
}

/// The post object of a list posts call.
#[derive(Debug)]
pub struct ListPostsPost {
    /// The post id.
    pub id: String,
    /// The post title.
    pub title: String,
    /// The post slug.
    pub slug: String,
    /// The post link.
    pub link: String,
    /// Whether this is nsfw; the server writes 0 or 1.
    pub nsfw: bool,
    /// The score of the post; the server may stringify it.
    pub score: i64,
    /// The number of comments on the post; the server may stringify
    /// it.
    pub comments: u64,
    /// The number of views.
    pub views: u64,
    /// The thumbnail.
    pub thumbnail: Thumbnail,
    /// Extra key values, preserved opaquely.
    pub extra: Vec<(String, JsonValue)>,
}

/// The abstract value of a [`ListPostsPost`].
pub struct ListPostsPostView {
    pub id: Seq<char>,
    pub title: Seq<char>,
    pub slug: Seq<char>,
    pub link: Seq<char>,
    pub nsfw: bool,
    pub score: i64,
    pub comments: u64,
    pub views: u64,
    pub thumbnail: ThumbnailView,
    pub extra: Seq<(String, JsonValue)>,
}

impl View for ListPostsPost {
    type V = ListPostsPostView;

    open spec fn view(&self) -> ListPostsPostView {
        ListPostsPostView {
            id: self.id@,
            title: self.title@,
            slug: self.slug@,
            link: self.link@,
            nsfw: self.nsfw,
            score: self.score,
            comments: self.comments,
            views: self.views,
            thumbnail: self.thumbnail@,
            extra: self.extra@,
        }
    }
}

/// How a listing row decodes from the members of its JSON object.
pub open spec fn spec_decode_list_post_obj(o: Seq<(String, JsonValue)>) -> Result<
    ListPostsPostView,
    (Seq<char>, DecodeErrorKind),
> {
    match spec_val_str(spec_obj_get(o, "id"@), "id"@) {
        Err(e) => Err(e),
        Ok(id) => match spec_val_str(spec_obj_get(o, "title"@), "title"@) {
            Err(e) => Err(e),
            Ok(title) => match spec_val_str(spec_obj_get(o, "slug"@), "slug"@) {
                Err(e) => Err(e),
                Ok(slug) => match spec_val_str(spec_obj_get(o, "link"@), "link"@) {
                    Err(e) => Err(e),
                    Ok(link) => match spec_val_bool_u8(spec_obj_get(o, "nsfw"@), "nsfw"@) {
                        Err(e) => Err(e),
                        Ok(nsfw) => match spec_val_i64_permissive(
                            spec_obj_get(o, "score"@),
                            "score"@,
                        ) {
                            Err(e) => Err(e),
                            Ok(score) => match spec_val_u64_permissive(
                                spec_obj_get(o, "comments"@),
                                "comments"@,
                            ) {
                                Err(e) => Err(e),
                                Ok(comments) => match spec_val_u64(
                                    spec_obj_get(o, "views"@),
                                    "views"@,
                                ) {
                                    Err(e) => Err(e),
                                    Ok(views) => match spec_obj_get(o, "thumbnail"@) {
                                        Option::None => Err(
                                            ("thumbnail"@, DecodeErrorKind::Missing),
                                        ),
                                        Option::Some(tv) => match spec_decode_thumbnail(tv) {
                                            Err(e) => Err(e),
                                            Ok(thumbnail) => Ok(
                                                ListPostsPostView {
                                                    id,
                                                    title,
                                                    slug,
                                                    link,
                                                    nsfw,
                                                    score,
                                                    comments,
                                                    views,
                                                    thumbnail,
                                                    extra: spec_extra_members(
                                                        o,
                                                        |k: Seq<char>| is_known_list_post_key(k),
                                                    ),
                                                },
                                            ),
                                        },
                                    },
                                },
                            },
                        },
                    },
                },
            },
        },
    }
}

/// How a listing row decodes from a JSON value.
pub open spec fn spec_decode_list_post(v: JsonValue) -> Result<
    ListPostsPostView,
    (Seq<char>, DecodeErrorKind),
> {
    match v {
        JsonValue::Object(o) => spec_decode_list_post_obj(o@),
        _ => Err(("post"@, DecodeErrorKind::WrongType)),
    }
}

/// Decode one row of a post listing, keeping unknown members.
#[verifier::loop_isolation(false)]
pub fn decode_list_post(v: JsonValue) -> (r: Result<ListPostsPost, DecodeError>)
    ensures
        r matches Ok(p) ==> spec_decode_list_post(v) matches Ok(pv) && p@ == pv,
        r matches Err(e) ==> spec_decode_list_post(v) matches Err(g) && e.field@ == g.0 && e.kind
            == g.1,
{
    let mut o = match v {
        JsonValue::Object(o) => o,
        _ => {
            return Err(
                DecodeError {
                    field: str_string("post"),
                    kind: DecodeErrorKind::WrongType,
                },
            );
        },
    };
    let ghost orig = o@;
    proof {
        reveal_strlit("id");
        reveal_strlit("title");
        reveal_strlit("slug");
        reveal_strlit("link");
        reveal_strlit("nsfw");
        reveal_strlit("score");
        reveal_strlit("comments");
        reveal_strlit("views");
        reveal_strlit("thumbnail");
    }
    let mut slot_id: Option<JsonValue> = None;
    let mut slot_title: Option<JsonValue> = None;
    let mut slot_slug: Option<JsonValue> = None;
    let mut slot_link: Option<JsonValue> = None;
    let mut slot_nsfw: Option<JsonValue> = None;
    let mut slot_score: Option<JsonValue> = None;
    let mut slot_comments: Option<JsonValue> = None;
    let mut slot_views: Option<JsonValue> = None;
    let mut slot_thumbnail: Option<JsonValue> = None;
    let mut extra: Vec<(String, JsonValue)> = Vec::new();
    let mut k: usize = 0;
    let n0 = o.len();
    proof {
        assert(orig.take(0) =~= Seq::<(String, JsonValue)>::empty());
        assert(orig.skip(0) =~= orig);
    }
    while o.len() > 0
        invariant
            k <= orig.len(),
            k + o@.len() == n0,
            o@ == orig.skip(k as int),
            slot_id == spec_obj_get(orig.take(k as int), "id"@),
            slot_title == spec_obj_get(orig.take(k as int), "title"@),
            slot_slug == spec_obj_get(orig.take(k as int), "slug"@),
            slot_link == spec_obj_get(orig.take(k as int), "link"@),
            slot_nsfw == spec_obj_get(orig.take(k as int), "nsfw"@),
            slot_score == spec_obj_get(orig.take(k as int), "score"@),
            slot_comments == spec_obj_get(orig.take(k as int), "comments"@),
            slot_views == spec_obj_get(orig.take(k as int), "views"@),
            slot_thumbnail == spec_obj_get(orig.take(k as int), "thumbnail"@),
            extra@ == spec_extra_members(
                orig.take(k as int),
                |kk: Seq<char>| is_known_list_post_key(kk),
            ),
        decreases o@.len(),
    {
        let m = o.remove(0);
        proof {
            reveal_strlit("id");
            reveal_strlit("title");
            reveal_strlit("slug");
            reveal_strlit("link");
            reveal_strlit("nsfw");
            reveal_strlit("score");
            reveal_strlit("comments");
            reveal_strlit("views");
            reveal_strlit("thumbnail");
            assert("id"@.len() == 2);
            assert("title"@.len() == 5);
            assert("slug"@.len() == 4);
            assert("link"@.len() == 4);
            assert("nsfw"@.len() == 4);
            assert("score"@.len() == 5);
            assert("comments"@.len() == 8);
            assert("views"@.len() == 5);
            assert("thumbnail"@.len() == 9);
            assert("slug"@[0] == 's' && "link"@[0] == 'l' && "nsfw"@[0] == 'n');
            assert("title"@[0] == 't' && "score"@[0] == 's' && "views"@[0] == 'v');
            assert(m == orig[k as int]);
            assert(orig.skip(k as int).remove(0) =~= orig.skip(k + 1));
            assert(orig.take(k + 1).drop_last() =~= orig.take(k as int));
            assert(orig.take(k + 1).last() == orig[k as int]);
        }
        if str_eq(m.0.as_str(), "id") {
            slot_id = Some(m.1);
        } else if str_eq(m.0.as_str(), "title") {
            slot_title = Some(m.1);
        } else if str_eq(m.0.as_str(), "slug") {
            slot_slug = Some(m.1);
        } else if str_eq(m.0.as_str(), "link") {
            slot_link = Some(m.1);
        } else if str_eq(m.0.as_str(), "nsfw") {
            slot_nsfw = Some(m.1);
        } else if str_eq(m.0.as_str(), "score") {
            slot_score = Some(m.1);
        } else if str_eq(m.0.as_str(), "comments") {
            slot_comments = Some(m.1);
        } else if str_eq(m.0.as_str(), "views") {
            slot_views = Some(m.1);
        } else if str_eq(m.0.as_str(), "thumbnail") {
            slot_thumbnail = Some(m.1);
        } else {
            extra.push(m);
        }
        k = k + 1;
    }
    proof {
        assert(orig.take(k as int) =~= orig);
    }
    let id = match val_str(slot_id, "id") {
        Ok(x) => x,
        Err(e) => {
            return Err(e);
        },
    };
    let title = match val_str(slot_title, "title") {
        Ok(x) => x,
        Err(e) => {
            return Err(e);
        },
    };
    let slug = match val_str(slot_slug, "slug") {
        Ok(x) => x,
        Err(e) => {
            return Err(e);
        },
    };
    let link = match val_str(slot_link, "link") {
        Ok(x) => x,
        Err(e) => {
            return Err(e);
        },
    };
    let nsfw = match val_bool_u8(slot_nsfw, "nsfw") {
        Ok(x) => x,
        Err(e) => {
            return Err(e);
        },
    };
    let score = match val_i64_permissive(slot_score, "score") {
        Ok(x) => x,
        Err(e) => {
            return Err(e);
        },
    };
    let comments = match val_u64_permissive(slot_comments, "comments") {
        Ok(x) => x,
        Err(e) => {
            return Err(e);
        },
    };
    let views = match val_u64(slot_views, "views") {
        Ok(x) => x,
        Err(e) => {
            return Err(e);
        },
    };
    let thumbnail = match slot_thumbnail {
        Some(tv) => match decode_thumbnail(tv) {
            Ok(t) => t,
            Err(e) => {
                return Err(e);
            },
        },
        None => {
            return Err(
                DecodeError {
                    field: str_string("thumbnail"),
                    kind: DecodeErrorKind::Missing,
                },
            );
        },
    };
    Ok(ListPostsPost { id, title, slug, link, nsfw, score, comments, views, thumbnail, extra })
}

/// How a whole listing decodes, row by row; the first failing row
/// fails the whole listing.
pub open spec fn spec_decode_list_posts(a: Seq<JsonValue>) -> Result<
    Seq<ListPostsPostView>,
    (Seq<char>, DecodeErrorKind),
>
    decreases a.len(),
{
    if a.len() == 0 {
        Ok(Seq::empty())
    } else {
        match spec_decode_list_posts(a.drop_last()) {
            Err(e) => Err(e),
            Ok(pre) => match spec_decode_list_post(a.last()) {
                Err(e) => Err(e),
                Ok(p) => Ok(pre.push(p)),
            },
        }
    }
}

/// Decode a whole post listing.
#[verifier::loop_isolation(false)]
pub fn decode_list_posts(a: Vec<JsonValue>) -> (r: Result<Vec<ListPostsPost>, DecodeError>)
    ensures
        r matches Ok(ps) ==> spec_decode_list_posts(a@) matches Ok(pvs) && ps@.map_values(
            |p: ListPostsPost| p@,
        ) == pvs,
        r matches Err(e) ==> spec_decode_list_posts(a@) matches Err(g) && e.field@ == g.0
            && e.kind == g.1,
{
    let ghost orig = a@;
    let mut a = a;
    let mut posts: Vec<ListPostsPost> = Vec::new();
    let mut k: usize = 0;
    let n0 = a.len();
    proof {
        assert(orig.take(0) =~= Seq::<JsonValue>::empty());
        assert(orig.skip(0) =~= orig);
        assert(posts@.map_values(|p: ListPostsPost| p@) =~= Seq::<ListPostsPostView>::empty());
    }
    while a.len() > 0
        invariant
            k <= orig.len(),
            k + a@.len() == n0,
            a@ == orig.skip(k as int),
            spec_decode_list_posts(orig.take(k as int)) == Ok::<Seq<ListPostsPostView>, (
                Seq<char>,
                DecodeErrorKind,
            )>(posts@.map_values(|p: ListPostsPost| p@)),
        decreases a@.len(),
    {
        let m = a.remove(0);
        proof {
            assert(m == orig[k as int]);
            assert(orig.skip(k as int).remove(0) =~= orig.skip(k + 1));
            assert(orig.take(k + 1).drop_last() =~= orig.take(k as int));
            assert(orig.take(k + 1).last() == orig[k as int]);
        }
        let p = match decode_list_post(m) {
            Ok(p) => p,
            Err(e) => {
                proof {
                    lemma_list_posts_error_extends(
                        orig,
                        k + 1,
                        spec_decode_list_post(orig[k as int])->Err_0,
                    );
                }
                return Err(e);
            },
        };
        let ghost pre = posts@;
        posts.push(p);
        proof {
            assert(posts@ == pre.push(p));
            assert(posts@.map_values(|q: ListPostsPost| q@) =~= pre.map_values(
                |q: ListPostsPost| q@,
            ).push(p@));
            assert(posts@.map_values(|q: ListPostsPost| q@) == posts@.map_values(
                |p: ListPostsPost| p@,
            ));
        }
        k = k + 1;
    }
    proof {
        assert(orig.take(k as int) =~= orig);
    }
    Ok(posts)
}

/// An error of a prefix is the error of every extension of it.
proof fn lemma_list_posts_error_extends(
    a: Seq<JsonValue>,
    k: int,
    e: (Seq<char>, DecodeErrorKind),
)
    requires
        0 <= k <= a.len(),
        spec_decode_list_posts(a.take(k)) == Err::<Seq<ListPostsPostView>, (
            Seq<char>,
            DecodeErrorKind,
        )>(e),
    ensures
        spec_decode_list_posts(a) == Err::<Seq<ListPostsPostView>, (Seq<char>, DecodeErrorKind)>(
            e,
        ),
    decreases a.len() - k,
{
    if k == a.len() {
        assert(a.take(k) =~= a);
    } else {
        assert(a.take(k + 1).drop_last() =~= a.take(k));
        lemma_list_posts_error_extends(a, k + 1, e);
    }
}

fn str_string(s: &str) -> (r: String)
    ensures
        r@ == s@,
{
    String::from_str(s)
}


// ---- Encoding back to JSON, for forwarding a listing ----

/// `v` is the JSON encoding of the thumbnail `t`: the known fields
/// in order, then the preserved unknown members.
pub open spec fn spec_is_encoded_thumbnail(v: JsonValue, t: Thumbnail) -> bool {
    &&& v matches JsonValue::Object(o)
    &&& v->Object_0@.len() == 3 + t.extra@.len()
    &&& v->Object_0@[0].0@ == "id"@ && v->Object_0@[0].1 == JsonValue::Str(t.id)
    &&& v->Object_0@[1].0@ == "description"@ && v->Object_0@[1].1 == (match t.description {
        Some(d) => JsonValue::Str(d),
        None => JsonValue::Null,
    })
    &&& v->Object_0@[2].0@ == "link"@ && v->Object_0@[2].1 == JsonValue::Str(t.link)
    &&& v->Object_0@.skip(3) == t.extra@
}

/// Encode a thumbnail back to JSON, unknown members preserved.
pub fn encode_thumbnail(t: Thumbnail) -> (v: JsonValue)
    ensures
        spec_is_encoded_thumbnail(v, t),
{
    let Thumbnail { id, description, link, mut extra } = t;
    let mut members: Vec<(String, JsonValue)> = Vec::new();
    members.push((str_string("id"), JsonValue::Str(id)));
    let dv = match description {
        Some(d) => JsonValue::Str(d),
        None => JsonValue::Null,
    };
    members.push((str_string("description"), dv));
    members.push((str_string("link"), JsonValue::Str(link)));
    members.append(&mut extra);
    proof {
        assert(members@.skip(3) =~= t.extra@);
    }
    JsonValue::Object(members)
}

/// `v` is the JSON encoding of the listing row `p`: the known
/// fields in order — the nsfw flag as 0/1, the score and comment
/// count in their string form — then the preserved unknown members.
pub open spec fn spec_is_encoded_list_post(v: JsonValue, p: ListPostsPost) -> bool {
    &&& v matches JsonValue::Object(o)
    &&& v->Object_0@.len() == 9 + p.extra@.len()
    &&& v->Object_0@[0].0@ == "id"@ && v->Object_0@[0].1 == JsonValue::Str(p.id)
    &&& v->Object_0@[1].0@ == "title"@ && v->Object_0@[1].1 == JsonValue::Str(p.title)
    &&& v->Object_0@[2].0@ == "slug"@ && v->Object_0@[2].1 == JsonValue::Str(p.slug)
    &&& v->Object_0@[3].0@ == "link"@ && v->Object_0@[3].1 == JsonValue::Str(p.link)
    &&& v->Object_0@[4].0@ == "nsfw"@ && v->Object_0@[4].1 == JsonValue::UInt(
        if p.nsfw {
            1u64
        } else {
            0u64
        },
    )
    &&& v->Object_0@[5].0@ == "score"@
    &&& v->Object_0@[5].1 matches JsonValue::Str(s) && s@ == crate::text::spec_signed_digits(
        p.score as int,
    )
    &&& v->Object_0@[6].0@ == "comments"@
    &&& v->Object_0@[6].1 matches JsonValue::Str(s) && s@ == crate::text::spec_digits(
        p.comments as int,
    )
    &&& v->Object_0@[7].0@ == "views"@ && v->Object_0@[7].1 == JsonValue::UInt(p.views)
    &&& v->Object_0@[8].0@ == "thumbnail"@ && spec_is_encoded_thumbnail(
        v->Object_0@[8].1,
        p.thumbnail,
    )
    &&& v->Object_0@.skip(9) == p.extra@
}

/// Encode a listing row back to JSON: the permissive fields go out
/// in their canonical wire form (the score and comment count as
/// digit strings, the nsfw flag as 0 or 1).
pub fn encode_list_post(p: ListPostsPost) -> (v: JsonValue)
    ensures
        spec_is_encoded_list_post(v, p),
{
    let ghost input = p;
    let ListPostsPost { id, title, slug, link, nsfw, score, comments, views, thumbnail, mut extra }
        = p;
    let mut members: Vec<(String, JsonValue)> = Vec::new();
    members.push((str_string("id"), JsonValue::Str(id)));
    members.push((str_string("title"), JsonValue::Str(title)));
    members.push((str_string("slug"), JsonValue::Str(slug)));
    members.push((str_string("link"), JsonValue::Str(link)));
    members.push((str_string("nsfw"), crate::codec::encode_bool_u8(nsfw)));
    members.push((str_string("score"), crate::codec::encode_i64_str(score)));
    members.push((str_string("comments"), crate::codec::encode_u64_str(comments)));
    members.push((str_string("views"), JsonValue::UInt(views)));
    members.push((str_string("thumbnail"), encode_thumbnail(thumbnail)));
    members.append(&mut extra);
    proof {
        assert(members@.skip(9) =~= input.extra@);
    }
    JsonValue::Object(members)
}

/// The JSON text of a whole listing, each row in its canonical wire
/// form.
pub fn list_posts_to_json(posts: Vec<ListPostsPost>) -> (s: String)
{
    let mut items: Vec<JsonValue> = Vec::new();
    let mut posts = posts;
    while posts.len() > 0
        decreases posts@.len(),
    {
        let p = posts.remove(0);
        items.push(encode_list_post(p));
    }
    crate::json::json_to_string(&JsonValue::Array(items))
}

} // verus!
