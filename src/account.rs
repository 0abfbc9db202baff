//! The signed-in user, as the account service describes it, and the
//! browser-storage keys that hold the session.

use vstd::prelude::*;
use crate::error::ErrorKind;

verus! {

/// Storage key of the access token.
pub const TOKEN_KEY: &'static str = "token";

/// The signed-in user.
#[derive(Clone, Debug, PartialEq)]
pub struct CurrentUser {
    pub id: i64,
    pub kind: String,
    pub email: String,
    pub name: Option<String>,
    pub mobile: Option<String>,
    pub laston: Option<i64>,
    pub created_at: i64,
    pub updated_at: Option<i64>,
}

impl CurrentUser {
    /// The name this user goes by in chat: the display name, or else the email.
    pub open spec fn spec_session_name(&self) -> Seq<char> {
        match self.name {
            Some(n) => n@,
            None => self.email@,
        }
    }

    /// The name this user goes by in chat: the display name, or else the email.
    pub fn session_name(&self) -> (r: String)
        ensures
            r@ == self.spec_session_name(),
    {
        match &self.name {
            Some(n) => n.clone(),
            None => self.email.clone(),
        }
    }
}

/// The access token, from what storage held under `TOKEN_KEY`.
pub fn get_token(stored: Option<String>) -> (r: Result<String, ErrorKind>)
    ensures
        stored matches Some(t) ==> r == Ok::<String, ErrorKind>(t),
        stored is None ==> (r matches Err(ErrorKind::OtherError(m)) && m@ == "get token failed"@),
{
    match stored {
        Some(t) => Ok(t),
        None => Err(ErrorKind::OtherError("get token failed".to_owned())),
    }
}

/// The storage keys to delete when the user signs out.
pub fn delete_current_user() -> (r: Vec<&'static str>)
    ensures
        r@.len() == 4,
        r@[0]@ == TOKEN_KEY@,
        r@[1]@ == "current_user"@,
        r@[2]@ == "selected_navbar_name"@,
        r@[3]@ == "selected_navbar_parent_name"@,
{
    let mut r: Vec<&'static str> = Vec::new();
    r.push(TOKEN_KEY);
    r.push("current_user");
    r.push("selected_navbar_name");
    r.push("selected_navbar_parent_name");
    r
}

} // verus!
