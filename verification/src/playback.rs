//! Reporting playback to the server: timeline updates and (un)scrobbles,
//! and the cached lists they make stale.
use vstd::prelude::*;
use crate::text::{decimal, decimal_string, owned};
use crate::web::pairs_view;

verus! {

broadcast use vstd::string::group_string_axioms;

/// Why a playback report failed.
#[derive(Debug)]
pub enum PlaybackError {
    Http(String),
}

/// What the player is doing, as reported to the server.
#[derive(Debug, Clone, Copy, PartialEq, Eq, Structural)]
pub enum TimelineState {
    Playing,
    Paused,
    Stopped,
}

/// The state's name on the wire.
pub open spec fn timeline_state_name(s: TimelineState) -> Seq<char> {
    match s {
        TimelineState::Playing => "playing"@,
        TimelineState::Paused => "paused"@,
        TimelineState::Stopped => "stopped"@,
    }
}

impl TimelineState {
    /// The state's name on the wire.
    pub fn as_str(self) -> (s: &'static str)
        ensures
            s@ == timeline_state_name(self),
    {
        match self {
            TimelineState::Playing => "playing",
            TimelineState::Paused => "paused",
            TimelineState::Stopped => "stopped",
        }
    }
}

/// The identifier of the library plugin that playback is reported to.
pub open spec fn library_identifier() -> Seq<char> {
    "com.plexapp.plugins.library"@
}

/// The query of a timeline update.
pub open spec fn spec_timeline_query(rating_key: Seq<char>, key: Seq<char>, time_ms: u64, duration_ms: Option<u64>, state: TimelineState) -> Seq<(Seq<char>, Seq<char>)> {
    seq![
        ("ratingKey"@, rating_key),
        ("key"@, key),
        ("identifier"@, library_identifier()),
        ("time"@, decimal(time_ms as nat)),
        ("state"@, timeline_state_name(state)),
    ] + match duration_ms {
        Some(d) => seq![("duration"@, decimal(d as nat))],
        None => Seq::empty(),
    }
}

/// The query of a timeline update.
pub fn timeline_query(rating_key: &str, key: &str, time_ms: u64, duration_ms: Option<u64>, state: TimelineState) -> (q: Vec<(String, String)>)
    ensures
        pairs_view(q@) == spec_timeline_query(rating_key@, key@, time_ms, duration_ms, state),
{
    let mut q: Vec<(String, String)> = Vec::new();
    q.push((owned("ratingKey"), owned(rating_key)));
    q.push((owned("key"), owned(key)));
    q.push((owned("identifier"), owned("com.plexapp.plugins.library")));
    q.push((owned("time"), decimal_string(time_ms)));
    q.push((owned("state"), owned(state.as_str())));
    let ghost before = q@;
    match duration_ms {
        Some(d) => {
            q.push((owned("duration"), decimal_string(d)));
        },
        None => {},
    }
    assert(pairs_view(q@) == spec_timeline_query(rating_key@, key@, time_ms, duration_ms, state));
    q
}

/// The query of a scrobble or unscrobble.
pub open spec fn spec_scrobble_query(rating_key: Seq<char>) -> Seq<(Seq<char>, Seq<char>)> {
    seq![("key"@, rating_key), ("identifier"@, library_identifier())]
}

/// The query of a scrobble or unscrobble.
pub fn scrobble_query(rating_key: &str) -> (q: Vec<(String, String)>)
    ensures
        pairs_view(q@) == spec_scrobble_query(rating_key@),
{
    let mut q: Vec<(String, String)> = Vec::new();
    q.push((owned("key"), owned(rating_key)));
    q.push((owned("identifier"), owned("com.plexapp.plugins.library")));
    assert(pairs_view(q@) == spec_scrobble_query(rating_key@));
    q
}

/// The cache prefixes a change of an item's watched state makes stale: its
/// metadata, every filtered section listing, and the hubs of its server.
pub open spec fn spec_watched_state_prefixes(base_url: Seq<char>, rating_key: Seq<char>) -> Seq<Seq<char>> {
    seq![
        "library:get_metadata:"@ + base_url + ":"@ + rating_key,
        "library:get_section_items_filtered:"@ + base_url + ":"@,
        "hubs:get_hubs:"@ + base_url,
    ]
}

/// The cache prefixes a change of an item's watched state makes stale.
pub fn watched_state_prefixes(base_url: &str, rating_key: &str) -> (r: Vec<String>)
    ensures
        r@.len() == 3,
        r@[0]@ == spec_watched_state_prefixes(base_url@, rating_key@)[0],
        r@[1]@ == spec_watched_state_prefixes(base_url@, rating_key@)[1],
        r@[2]@ == spec_watched_state_prefixes(base_url@, rating_key@)[2],
{
    let mut a = owned("library:get_metadata:");
    a.append(base_url);
    a.append(":");
    a.append(rating_key);
    let mut b = owned("library:get_section_items_filtered:");
    b.append(base_url);
    b.append(":");
    let mut c = owned("hubs:get_hubs:");
    c.append(base_url);
    let mut r: Vec<String> = Vec::new();
    r.push(a);
    r.push(b);
    r.push(c);
    r
}

} // verus!
