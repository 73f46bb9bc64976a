//! The navigation state around the player: what is playing and where to go back to.
use vstd::prelude::*;
use crate::text::{opt_view, owned};

verus! {

broadcast use vstd::string::group_string_axioms;

/// The view a player returns to when no previous view was recorded.
pub open spec fn default_return_view() -> Seq<char> {
    "detail"@
}

/// The non-GUI part of the player navigation state.
#[derive(Debug, Clone, Default)]
pub struct PlayerNavState {
    pub playback_uri: Option<String>,
    pub playback_title: Option<String>,
    pub playback_rating_key: Option<String>,
    pub current_item_key: Option<String>,
    pub previous_view: Option<String>,
}

/// The state as plain values.
pub struct PlayerNavView {
    pub playback_uri: Option<Seq<char>>,
    pub playback_title: Option<Seq<char>>,
    pub playback_rating_key: Option<Seq<char>>,
    pub current_item_key: Option<Seq<char>>,
    pub previous_view: Option<Seq<char>>,
}

impl View for PlayerNavState {
    type V = PlayerNavView;

    open spec fn view(&self) -> PlayerNavView {
        PlayerNavView {
            playback_uri: opt_view(self.playback_uri),
            playback_title: opt_view(self.playback_title),
            playback_rating_key: opt_view(self.playback_rating_key),
            current_item_key: opt_view(self.current_item_key),
            previous_view: opt_view(self.previous_view),
        }
    }
}

/// The view to go back to: the recorded one, else the detail view.
pub open spec fn return_view(s: PlayerNavView) -> Seq<char> {
    match s.previous_view {
        Some(v) => v,
        None => default_return_view(),
    }
}

/// The state after `start_playback(uri, title, rating_key)`.
pub open spec fn started(s: PlayerNavView, uri: Seq<char>, title: Seq<char>, rating_key: Option<Seq<char>>) -> PlayerNavView {
    PlayerNavView {
        playback_uri: Some(uri),
        playback_title: Some(title),
        playback_rating_key: rating_key,
        current_item_key: s.current_item_key,
        previous_view: match s.previous_view {
            Some(v) => Some(v),
            None => Some(default_return_view()),
        },
    }
}

/// The state after `leave_player()`.
pub open spec fn left(s: PlayerNavView) -> PlayerNavView {
    PlayerNavView { playback_uri: None, playback_rating_key: None, ..s }
}

/// The state after `navigate_to_detail(rating_key, from_view)`.
pub open spec fn navigated(s: PlayerNavView, rating_key: Seq<char>, from_view: Seq<char>) -> PlayerNavView {
    PlayerNavView { current_item_key: Some(rating_key), previous_view: Some(from_view), ..s }
}

/// Starting playback never changes where the player returns to, once a place
/// is recorded; when none is, it becomes the detail view.
pub proof fn law_playback_keeps_return_view(s: PlayerNavView, uri: Seq<char>, title: Seq<char>, rating_key: Option<Seq<char>>)
    ensures
        return_view(started(s, uri, title, rating_key)) == return_view(s),
{
}

/// Leaving the player stops playback and forgets the rating key, and keeps
/// the title and the place to return to.
pub proof fn law_leave_stops_playback(s: PlayerNavView)
    ensures
        left(s).playback_uri is None,
        left(s).playback_rating_key is None,
        left(s).playback_title == s.playback_title,
        return_view(left(s)) == return_view(s),
{
}

/// Browsing to a detail page from some view, then playing, then leaving,
/// comes back to that view, with nothing playing.
pub proof fn law_detail_play_leave_returns_to_origin(
    s: PlayerNavView,
    rating_key: Seq<char>,
    from_view: Seq<char>,
    uri: Seq<char>,
    title: Seq<char>,
    play_key: Option<Seq<char>>,
)
    ensures
        return_view(left(started(navigated(s, rating_key, from_view), uri, title, play_key))) == from_view,
        left(started(navigated(s, rating_key, from_view), uri, title, play_key)).playback_uri is None,
{
}

/// One call on the navigation state.
pub enum NavOp {
    /// `start_playback(uri, title, rating_key)`.
    Start { uri: Seq<char>, title: Seq<char>, rating_key: Option<Seq<char>> },
    /// `navigate_to_detail(rating_key, from_view)`.
    Navigate { rating_key: Seq<char>, from_view: Seq<char> },
    /// `enter_pip_mode()`.
    Pip,
    /// `leave_player()`.
    Leave,
}

/// The state after one call.
pub open spec fn apply_op(s: PlayerNavView, op: NavOp) -> PlayerNavView {
    match op {
        NavOp::Start { uri, title, rating_key } => started(s, uri, title, rating_key),
        NavOp::Navigate { rating_key, from_view } => navigated(s, rating_key, from_view),
        NavOp::Pip => s,
        NavOp::Leave => left(s),
    }
}

/// The state after a sequence of calls, in order.
pub open spec fn run_ops(s: PlayerNavView, ops: Seq<NavOp>) -> PlayerNavView
    decreases ops.len(),
{
    if ops.len() == 0 {
        s
    } else {
        apply_op(run_ops(s, ops.drop_last()), ops.last())
    }
}

/// The calls hold a start with no leave after it.
pub open spec fn started_since_leave(ops: Seq<NavOp>) -> bool
    decreases ops.len(),
{
    if ops.len() == 0 {
        false
    } else {
        match ops.last() {
            NavOp::Start { .. } => true,
            NavOp::Leave => false,
            _ => started_since_leave(ops.drop_last()),
        }
    }
}

/// The state of a new navigation state.
pub open spec fn empty_nav() -> PlayerNavView {
    PlayerNavView { playback_uri: None, playback_title: None, playback_rating_key: None, current_item_key: None, previous_view: None }
}

/// From a new state, whatever calls follow, playback is on exactly when
/// some playback was started and the player was not left since; browsing
/// and picture-in-picture change nothing of it.
pub proof fn law_playing_after_calls(ops: Seq<NavOp>)
    ensures
        (run_ops(empty_nav(), ops).playback_uri is Some) == started_since_leave(ops),
    decreases ops.len(),
{
    if ops.len() > 0 {
        law_playing_after_calls(ops.drop_last());
    }
}

/// An optional borrowed string, by its view.
pub open spec fn opt_str_view(o: Option<&str>) -> Option<Seq<char>> {
    match o {
        Some(s) => Some(s@),
        None => None,
    }
}

impl PlayerNavState {
    /// An empty state: nothing playing, nowhere to return to.
    pub fn new() -> (s: Self)
        ensures
            s@ == (PlayerNavView {
                playback_uri: None,
                playback_title: None,
                playback_rating_key: None,
                current_item_key: None,
                previous_view: None,
            }),
    {
        PlayerNavState {
            playback_uri: None,
            playback_title: None,
            playback_rating_key: None,
            current_item_key: None,
            previous_view: None,
        }
    }

    /// Prepares for playback: records URI, title and rating key, and makes the
    /// detail view the place to return to unless one is already recorded.
    pub fn start_playback(&mut self, uri: &str, title: &str, rating_key: Option<&str>)
        ensures
            final(self)@ == started(old(self)@, uri@, title@, opt_str_view(rating_key)),
    {
        self.playback_uri = Some(owned(uri));
        self.playback_title = Some(owned(title));
        self.playback_rating_key = match rating_key {
            Some(k) => Some(owned(k)),
            None => None,
        };
        if self.previous_view.is_none() {
            self.previous_view = Some(owned("detail"));
        }
    }

    /// Opens the detail page of `rating_key`, coming from `from_view`.
    pub fn navigate_to_detail(&mut self, rating_key: &str, from_view: &str)
        ensures
            final(self)@ == navigated(old(self)@, rating_key@, from_view@),
    {
        self.current_item_key = Some(owned(rating_key));
        self.previous_view = Some(owned(from_view));
    }

    /// Leaves the player for good: forgets the URI and rating key, and returns
    /// the view to go back to.
    pub fn leave_player(&mut self) -> (dest: String)
        ensures
            final(self)@ == left(old(self)@),
            dest@ == return_view(old(self)@),
    {
        self.playback_uri = None;
        self.playback_rating_key = None;
        match &self.previous_view {
            Some(v) => v.clone(),
            None => owned("detail"),
        }
    }

    /// Enters picture-in-picture: playback stays as it is, and the view to go
    /// back to is returned.
    pub fn enter_pip_mode(&mut self) -> (dest: String)
        ensures
            final(self)@ == old(self)@,
            dest@ == return_view(old(self)@),
    {
        match &self.previous_view {
            Some(v) => v.clone(),
            None => owned("detail"),
        }
    }

    /// Whether playback is intended (a URI is set).
    pub fn is_playing(&self) -> (b: bool)
        ensures
            b == (self@.playback_uri is Some),
    {
        self.playback_uri.is_some()
    }
}

} // verus!
