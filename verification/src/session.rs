//! The session state shared by all operations of one client: the
//! optional bearer token. The surrounding runtime wraps a session in
//! its own synchronization; every operation reads the token through
//! [`Session::get_token`] and fails fast without one.

use vstd::prelude::*;

verus! {

/// The mutable authentication context of a client.
#[derive(Debug)]
pub struct Session {
    /// The bearer token, if credentials were set.
    pub token: Option<String>,
}

impl Session {
    /// A session with no credentials: authenticated operations fail
    /// before any network call.
    pub fn new() -> (s: Self)
        ensures
            s.token is None,
    {
        Session { token: None }
    }

    /// Overwrite the stored bearer token.
    pub fn set_token(&mut self, token: String)
        ensures
            final(self).token matches Some(t) && t@ == token@,
    {
        self.token = Some(token);
    }

    /// The token an authenticated operation must carry. With no
    /// credentials set, the operation fails fast, before any network
    /// effect.
    pub fn require_token(&self) -> (r: Result<String, crate::Error>)
        ensures
            self.token matches Some(t) ==> (r matches Ok(u) && u@ == t@),
            self.token is None ==> (r matches Err(e) && e matches crate::Error::MissingToken),
    {
        match &self.token {
            Some(t) => Ok(t.clone()),
            None => Err(crate::Error::MissingToken),
        }
    }

    /// The current token, cloned for the caller.
    pub fn get_token(&self) -> (r: Option<String>)
        ensures
            match r {
                Some(t) => self.token matches Some(u) && u@ == t@,
                None => self.token is None,
            },
    {
        match &self.token {
            Some(t) => Some(t.clone()),
            None => None,
        }
    }
}

} // verus!
