//! The accounts of a Plex Home and switching between them.
use vstd::prelude::*;
use crate::text::{decimal, decimal_string, owned};
use crate::web::pairs_view;

verus! {

broadcast use vstd::string::group_string_axioms;

/// Why a Home request failed.
#[derive(Debug)]
pub enum UsersError {
    Http(String),
}

/// An account of the Home.
#[derive(Debug, Clone)]
pub struct HomeUser {
    pub id: u64,
    pub title: String,
    pub username: Option<String>,
    pub thumb: Option<String>,
    pub admin: Option<bool>,
    pub guest: Option<bool>,
    pub restricted: Option<bool>,
    pub is_protected: Option<bool>,
}

/// The answer to a switch: the new account's token.
#[derive(Debug)]
pub struct SwitchUserResponse {
    pub auth_token: Option<String>,
}

/// The URL that switches to a Home account.
pub open spec fn spec_switch_user_url(user_id: u64) -> Seq<char> {
    "https://plex.tv/api/v2/home/users/"@ + decimal(user_id as nat) + "/switch"@
}

/// The URL that switches to a Home account.
pub fn switch_user_url(user_id: u64) -> (r: String)
    ensures
        r@ == spec_switch_user_url(user_id),
{
    let mut r = owned("https://plex.tv/api/v2/home/users/");
    let id = decimal_string(user_id);
    r.append(id.as_str());
    r.append("/switch");
    r
}

/// The query of a switch: the account's PIN when it has one.
pub fn switch_user_query(pin: Option<&str>) -> (q: Vec<(String, String)>)
    ensures
        pairs_view(q@) == match pin {
            Some(p) => seq![("pin"@, p@)],
            None => Seq::<(Seq<char>, Seq<char>)>::empty(),
        },
{
    let mut q: Vec<(String, String)> = Vec::new();
    match pin {
        Some(p) => {
            q.push((owned("pin"), owned(p)));
            assert(pairs_view(q@) == seq![("pin"@, p@)]);
        },
        None => {
            assert(pairs_view(q@) == Seq::<(Seq<char>, Seq<char>)>::empty());
        },
    }
    q
}

} // verus!
