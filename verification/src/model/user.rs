//! The authenticated API's view of a user account.

use crate::codec::field_datetime_iso;
use crate::codec::field_str;
use crate::codec::spec_val_datetime_iso;
use crate::codec::spec_val_str;
use crate::codec::DecodeError;
use crate::codec::DecodeErrorKind;
use crate::date::DateTime;
use crate::json::spec_obj_get;
use crate::json::JsonValue;
use vstd::prelude::*;

verus! {

/// An API user object.
#[derive(Debug, Clone)]
pub struct User {
    /// The user's name.
    pub name: String,
    /// The time this user was created.
    pub created: DateTime,
}

/// The abstract value of a [`User`].
pub struct UserView {
    pub name: Seq<char>,
    pub created: DateTime,
}

impl View for User {
    type V = UserView;

    open spec fn view(&self) -> UserView {
        UserView { name: self.name@, created: self.created }
    }
}

/// How a user decodes from its JSON object.
pub open spec fn spec_decode_user(v: JsonValue) -> Result<UserView, (Seq<char>, DecodeErrorKind)> {
    match v {
        JsonValue::Object(o) => match spec_val_str(spec_obj_get(o@, "name"@), "name"@) {
            Err(e) => Err(e),
            Ok(name) => match spec_val_datetime_iso(spec_obj_get(o@, "created"@), "created"@) {
                Err(e) => Err(e),
                Ok(created) => Ok(UserView { name, created }),
            },
        },
        _ => Err(("user"@, DecodeErrorKind::WrongType)),
    }
}

/// Decode an API user object.
pub fn decode_user(v: &JsonValue) -> (r: Result<User, DecodeError>)
    ensures
        r matches Ok(u) ==> spec_decode_user(*v) matches Ok(uv) && u@ == uv && u.created.wf(),
        r matches Err(e) ==> spec_decode_user(*v) matches Err(g) && e.field@ == g.0 && e.kind
            == g.1,
{
    let o = match v {
        JsonValue::Object(o) => o,
        _ => {
            return Err(
                DecodeError { field: str_string("user"), kind: DecodeErrorKind::WrongType },
            );
        },
    };
    let name = match field_str(o, "name") {
        Ok(x) => x,
        Err(e) => {
            return Err(e);
        },
    };
    let created = match field_datetime_iso(o, "created") {
        Ok(x) => x,
        Err(e) => {
            return Err(e);
        },
    };
    Ok(User { name, created })
}

fn str_string(s: &str) -> (r: String)
    ensures
        r@ == s@,
{
    String::from_str(s)
}

} // verus!
