//! The public profile of a user, as scraped from the profile page's
//! embedded data-page payload.

use crate::codec::field_datetime_mdy;
use crate::codec::field_str;
use crate::codec::field_u64;
use crate::codec::spec_val_datetime_mdy;
use crate::codec::spec_val_str;
use crate::codec::spec_val_u64;
use crate::codec::DecodeError;
use crate::codec::DecodeErrorKind;
use crate::date::DateTime;
use crate::json::obj_get;
use crate::json::spec_obj_get;
use crate::json::JsonValue;
use crate::JsonError;
use vstd::prelude::*;

verus! {

/// An error that may occur while extracting a record from a scraped
/// HTML page.
#[derive(Debug)]
pub enum FromHtmlError {
    /// A named element was missing from the document.
    MissingElement(String),
    /// A named attribute was missing from the matched element.
    MissingAttribute(String),
    /// The embedded data-page payload was not valid JSON.
    InvalidDataPage(JsonError),
    /// The data-page payload did not hold the expected fields.
    InvalidDataPageShape(DecodeError),
    /// One record of a loaded HTML fragment lacked a named
    /// attribute; nothing of the fragment is returned.
    MissingFragmentAttribute { index: usize, attribute: String },
}

/// A user's public profile, scraped from HTML.
///
/// The creation instant is an estimate: the page shows the date
/// only, so it is coerced to midnight UTC.
#[derive(Debug, Clone)]
pub struct ScrapedUser {
    /// The user's name.
    pub name: String,
    /// The number of posts created by this user.
    pub posts: u64,
    /// The number of comments created by this user.
    pub comments: u64,
    /// The estimated time this user was created, at day precision.
    pub created: DateTime,
    /// The number of views over all posts of this user.
    pub post_views: u64,
    /// The experience score of this user.
    pub experience: u64,
    /// The number of favorites by this user.
    pub favorites: u64,
}

/// The abstract value of a [`ScrapedUser`].
pub struct ScrapedUserView {
    pub name: Seq<char>,
    pub posts: u64,
    pub comments: u64,
    pub created: DateTime,
    pub post_views: u64,
    pub experience: u64,
    pub favorites: u64,
}

impl View for ScrapedUser {
    type V = ScrapedUserView;

    open spec fn view(&self) -> ScrapedUserView {
        ScrapedUserView {
            name: self.name@,
            posts: self.posts,
            comments: self.comments,
            created: self.created,
            post_views: self.post_views,
            experience: self.experience,
            favorites: self.favorites,
        }
    }
}

/// How a profile decodes from the members of the `targetUser`
/// object.
pub open spec fn spec_decode_target_user(o: Seq<(String, JsonValue)>) -> Result<
    ScrapedUserView,
    (Seq<char>, DecodeErrorKind),
> {
    match spec_val_str(spec_obj_get(o, "username"@), "username"@) {
        Err(e) => Err(e),
        Ok(name) => match spec_val_u64(spec_obj_get(o, "post_count"@), "post_count"@) {
            Err(e) => Err(e),
            Ok(posts) => match spec_val_u64(spec_obj_get(o, "comment_count"@), "comment_count"@) {
                Err(e) => Err(e),
                Ok(comments) => match spec_val_datetime_mdy(
                    spec_obj_get(o, "created_at"@),
                    "created_at"@,
                ) {
                    Err(e) => Err(e),
                    Ok(created) => match spec_val_u64(spec_obj_get(o, "post_views"@), "post_views"@) {
                        Err(e) => Err(e),
                        Ok(post_views) => match spec_val_u64(
                            spec_obj_get(o, "experience"@),
                            "experience"@,
                        ) {
                            Err(e) => Err(e),
                            Ok(experience) => match spec_val_u64(
                                spec_obj_get(o, "favorite_count"@),
                                "favorite_count"@,
                            ) {
                                Err(e) => Err(e),
                                Ok(favorites) => Ok(
                                    ScrapedUserView {
                                        name,
                                        posts,
                                        comments,
                                        created,
                                        post_views,
                                        experience,
                                        favorites,
                                    },
                                ),
                            },
                        },
                    },
                },
            },
        },
    }
}

/// The object bound to key `k`, if `vo` holds an object there.
pub open spec fn spec_get_object(vo: Option<JsonValue>, name: Seq<char>) -> Result<
    Seq<(String, JsonValue)>,
    (Seq<char>, DecodeErrorKind),
> {
    match vo {
        Option::None => Err((name, DecodeErrorKind::Missing)),
        Option::Some(JsonValue::Object(o)) => Ok(o@),
        Option::Some(_) => Err((name, DecodeErrorKind::WrongType)),
    }
}

/// How a profile decodes from a whole data-page payload: the
/// `props.targetUser` object holds the profile.
pub open spec fn spec_decode_scraped_user(v: JsonValue) -> Result<
    ScrapedUserView,
    (Seq<char>, DecodeErrorKind),
> {
    match v {
        JsonValue::Object(top) => match spec_get_object(spec_obj_get(top@, "props"@), "props"@) {
            Err(e) => Err(e),
            Ok(props) => match spec_get_object(spec_obj_get(props, "targetUser"@), "targetUser"@) {
                Err(e) => Err(e),
                Ok(tu) => spec_decode_target_user(tu),
            },
        },
        _ => Err(("page"@, DecodeErrorKind::WrongType)),
    }
}

/// Decode a profile from a parsed data-page payload.
pub fn scraped_user_from_data_page(v: &JsonValue) -> (r: Result<ScrapedUser, DecodeError>)
    ensures
        r matches Ok(u) ==> spec_decode_scraped_user(*v) matches Ok(uv) && u@ == uv
            && u.created.wf(),
        r matches Err(e) ==> spec_decode_scraped_user(*v) matches Err(g) && e.field@ == g.0
            && e.kind == g.1,
{
    let top = match v {
        JsonValue::Object(o) => o,
        _ => {
            return Err(
                DecodeError { field: str_string("page"), kind: DecodeErrorKind::WrongType },
            );
        },
    };
    let props = match obj_get(top, "props") {
        Some(pv) => match pv {
            JsonValue::Object(p) => p,
            _ => {
                return Err(
                    DecodeError { field: str_string("props"), kind: DecodeErrorKind::WrongType },
                );
            },
        },
        None => {
            return Err(
                DecodeError { field: str_string("props"), kind: DecodeErrorKind::Missing },
            );
        },
    };
    let tu = match obj_get(props, "targetUser") {
        Some(tv) => match tv {
            JsonValue::Object(t) => t,
            _ => {
                return Err(
                    DecodeError {
                        field: str_string("targetUser"),
                        kind: DecodeErrorKind::WrongType,
                    },
                );
            },
        },
        None => {
            return Err(
                DecodeError { field: str_string("targetUser"), kind: DecodeErrorKind::Missing },
            );
        },
    };
    let name = match field_str(tu, "username") {
        Ok(x) => x,
        Err(e) => {
            return Err(e);
        },
    };
    let posts = match field_u64(tu, "post_count") {
        Ok(x) => x,
        Err(e) => {
            return Err(e);
        },
    };
    let comments = match field_u64(tu, "comment_count") {
        Ok(x) => x,
        Err(e) => {
            return Err(e);
        },
    };
    let created = match field_datetime_mdy(tu, "created_at") {
        Ok(x) => x,
        Err(e) => {
            return Err(e);
        },
    };
    let post_views = match field_u64(tu, "post_views") {
        Ok(x) => x,
        Err(e) => {
            return Err(e);
        },
    };
    let experience = match field_u64(tu, "experience") {
        Ok(x) => x,
        Err(e) => {
            return Err(e);
        },
    };
    let favorites = match field_u64(tu, "favorite_count") {
        Ok(x) => x,
        Err(e) => {
            return Err(e);
        },
    };
    Ok(ScrapedUser { name, posts, comments, created, post_views, experience, favorites })
}

fn str_string(s: &str) -> (r: String)
    ensures
        r@ == s@,
{
    String::from_str(s)
}

} // verus!
