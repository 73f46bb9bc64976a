//! Signing in with a PIN: the user, the PIN, and the page that approves it.
use vstd::prelude::*;
use crate::text::owned;

verus! {

broadcast use vstd::string::group_string_axioms;

/// Why an authentication request failed.
#[derive(Debug)]
pub enum AuthError {
    Http(String),
    InvalidToken,
    Other(String),
}

/// The signed-in account.
#[derive(Debug)]
pub struct PlexUser {
    pub id: u64,
    pub username: String,
    pub email: Option<String>,
    pub thumb: Option<String>,
    pub title: Option<String>,
}

/// A sign-in PIN; its token is set once the user approved it.
#[derive(Debug)]
pub struct PlexPin {
    pub id: u64,
    pub code: String,
    pub auth_token: Option<String>,
}

/// The page where the user approves a PIN.
pub open spec fn spec_auth_url(pin_code: Seq<char>, client_id: Seq<char>) -> Seq<char> {
    "https://app.plex.tv/auth#?clientID="@ + client_id + "&code="@ + pin_code
        + "&context%5Bdevice%5D%5Bproduct%5D=Simplex"@
}

/// The page where the user approves a PIN.
pub fn get_auth_url(pin_code: &str, client_id: &str) -> (r: String)
    ensures
        r@ == spec_auth_url(pin_code@, client_id@),
{
    let mut r = owned("https://app.plex.tv/auth#?clientID=");
    r.append(client_id);
    r.append("&code=");
    r.append(pin_code);
    r.append("&context%5Bdevice%5D%5Bproduct%5D=Simplex");
    r
}

} // verus!
