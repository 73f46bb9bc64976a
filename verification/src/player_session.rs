//! The full player's bookkeeping between clock ticks: where the previous
//! and next buttons lead, which skip button shows, the up-next countdown,
//! and when playback is reported to the server. The player calls these on
//! each tick and does what they say.
use vstd::prelude::*;
use crate::library::{spec_best_thumb, spec_thumb_url, AdjacentEpisodes, Marker, MetadataItem};
use crate::mini_player::{mini_session, NavTarget};
use crate::playback::TimelineState;
use crate::player_logic::{format_up_next_subtitle, marker_holds, spec_up_next_subtitle};
use crate::text::{opt_view, owned, str_eq};
use crate::transcode::{playback_url_for_item, spec_playback_url};

verus! {

broadcast use vstd::string::group_string_axioms;

/// What the player keeps of the episodes around the one playing: where
/// each plays from, its title and key, and for the next one its artwork
/// and numbers for the up-next card.
pub struct AdjacentCache {
    pub prev_url: Option<String>,
    pub prev_title: Option<String>,
    pub prev_rating_key: Option<String>,
    pub next_url: Option<String>,
    pub next_title: Option<String>,
    pub next_rating_key: Option<String>,
    pub next_thumb: Option<String>,
    pub next_parent_index: Option<u32>,
    pub next_index: Option<u32>,
}

/// Where an optional item plays from.
pub open spec fn opt_url(item: Option<MetadataItem>, base_url: Seq<char>, token: Seq<char>) -> Option<Seq<char>> {
    match item {
        Some(i) => spec_playback_url(i, base_url, token, mini_session()),
        None => None,
    }
}

/// The title of an optional item.
pub open spec fn opt_title(item: Option<MetadataItem>) -> Option<Seq<char>> {
    match item {
        Some(i) => Some(i.title@),
        None => None,
    }
}

/// The rating key of an optional item.
pub open spec fn opt_key(item: Option<MetadataItem>) -> Option<Seq<char>> {
    match item {
        Some(i) => Some(i.rating_key@),
        None => None,
    }
}

/// The artwork URL of an optional item.
pub open spec fn opt_thumb(item: Option<MetadataItem>, base_url: Seq<char>, token: Seq<char>) -> Option<Seq<char>> {
    match item {
        Some(i) => match spec_best_thumb(i) {
            Some(t) => Some(spec_thumb_url(base_url, token, t)),
            None => None,
        },
        None => None,
    }
}

fn item_url(item: &Option<MetadataItem>, base_url: &str, token: &str) -> (r: Option<String>)
    ensures
        opt_view(r) == opt_url(*item, base_url@, token@),
{
    match item {
        Some(i) => playback_url_for_item(i, base_url, token, "simplex-session"),
        None => None,
    }
}

fn item_title(item: &Option<MetadataItem>) -> (r: Option<String>)
    ensures
        opt_view(r) == opt_title(*item),
{
    match item {
        Some(i) => Some(i.title.clone()),
        None => None,
    }
}

fn item_key(item: &Option<MetadataItem>) -> (r: Option<String>)
    ensures
        opt_view(r) == opt_key(*item),
{
    match item {
        Some(i) => Some(i.rating_key.clone()),
        None => None,
    }
}

/// What the player keeps of the episodes around the one playing.
pub fn adjacent_cache(adj: &AdjacentEpisodes, base_url: &str, token: &str) -> (c: AdjacentCache)
    ensures
        opt_view(c.prev_url) == opt_url(adj.previous, base_url@, token@),
        opt_view(c.prev_title) == opt_title(adj.previous),
        opt_view(c.prev_rating_key) == opt_key(adj.previous),
        opt_view(c.next_url) == opt_url(adj.next, base_url@, token@),
        opt_view(c.next_title) == opt_title(adj.next),
        opt_view(c.next_rating_key) == opt_key(adj.next),
        opt_view(c.next_thumb) == opt_thumb(adj.next, base_url@, token@),
        c.next_parent_index == (match adj.next { Some(i) => i.parent_index, None => None }),
        c.next_index == (match adj.next { Some(i) => i.index, None => None }),
{
    AdjacentCache {
        prev_url: item_url(&adj.previous, base_url, token),
        prev_title: item_title(&adj.previous),
        prev_rating_key: item_key(&adj.previous),
        next_url: item_url(&adj.next, base_url, token),
        next_title: item_title(&adj.next),
        next_rating_key: item_key(&adj.next),
        next_thumb: match &adj.next {
            Some(i) => i.best_thumb_url(base_url, token),
            None => None,
        },
        next_parent_index: match &adj.next {
            Some(i) => i.parent_index,
            None => None,
        },
        next_index: match &adj.next {
            Some(i) => i.index,
            None => None,
        },
    }
}

/// A present string, or the empty one.
pub open spec fn or_empty(o: Option<Seq<char>>) -> Seq<char> {
    match o {
        Some(s) => s,
        None => Seq::empty(),
    }
}

fn copy_or_empty(o: &Option<String>) -> (r: String)
    ensures
        r@ == or_empty(opt_view(*o)),
{
    match o {
        Some(s) => s.clone(),
        None => String::new(),
    }
}

/// Where a switch leads: the URL, with the title and key (empty when unknown).
pub open spec fn spec_switch_target(url: Option<Seq<char>>, title: Option<Seq<char>>, key: Option<Seq<char>>) -> Option<(Seq<char>, Seq<char>, Seq<char>)> {
    match url {
        Some(u) => Some((u, or_empty(title), or_empty(key))),
        None => None,
    }
}

/// A target as plain values.
pub open spec fn target_of(t: Option<NavTarget>) -> Option<(Seq<char>, Seq<char>, Seq<char>)> {
    match t {
        Some(x) => Some((x.uri@, x.title@, x.rating_key@)),
        None => None,
    }
}

fn switch_target(url: &Option<String>, title: &Option<String>, key: &Option<String>) -> (r: Option<NavTarget>)
    ensures
        target_of(r) == spec_switch_target(opt_view(*url), opt_view(*title), opt_view(*key)),
{
    match url {
        Some(u) => Some(NavTarget { uri: u.clone(), title: copy_or_empty(title), rating_key: copy_or_empty(key) }),
        None => None,
    }
}

impl AdjacentCache {
    /// Where the previous button leads; none makes it insensitive.
    pub fn prev_target(&self) -> (r: Option<NavTarget>)
        ensures
            target_of(r) == spec_switch_target(opt_view(self.prev_url), opt_view(self.prev_title), opt_view(self.prev_rating_key)),
    {
        switch_target(&self.prev_url, &self.prev_title, &self.prev_rating_key)
    }

    /// Where the next button, the up-next card and the countdown lead.
    pub fn next_target(&self) -> (r: Option<NavTarget>)
        ensures
            target_of(r) == spec_switch_target(opt_view(self.next_url), opt_view(self.next_title), opt_view(self.next_rating_key)),
    {
        switch_target(&self.next_url, &self.next_title, &self.next_rating_key)
    }

    /// The up-next card's title (`Next Episode` when unknown) and subtitle.
    pub fn up_next_card(&self) -> (r: (String, String))
        ensures
            r.0@ == match self.next_title {
                Some(t) => t@,
                None => "Next Episode"@,
            },
            r.1@ == spec_up_next_subtitle(self.next_parent_index, self.next_index),
    {
        let title = match &self.next_title {
            Some(t) => t.clone(),
            None => owned("Next Episode"),
        };
        (title, format_up_next_subtitle(self.next_parent_index, self.next_index))
    }
}

/// What the markers say at a position: inside an intro, inside credits,
/// and where a skip lands (the end of the last such span in the list).
#[derive(Debug, Clone, Copy, PartialEq, Eq, Structural)]
pub struct MarkerScan {
    pub in_intro: bool,
    pub in_credits: bool,
    pub skip_to_ms: Option<u64>,
}

/// The scan of the first `n` markers.
pub open spec fn spec_scan(ms: Seq<Marker>, pos: u64, n: int) -> MarkerScan
    decreases n,
{
    if n <= 0 {
        MarkerScan { in_intro: false, in_credits: false, skip_to_ms: None }
    } else {
        let prev = spec_scan(ms, pos, n - 1);
        let m = ms[n - 1];
        if marker_holds(m, pos, "intro"@) {
            MarkerScan { in_intro: true, skip_to_ms: Some(m.end_time_offset->0), ..prev }
        } else if marker_holds(m, pos, "credits"@) {
            MarkerScan { in_credits: true, skip_to_ms: Some(m.end_time_offset->0), ..prev }
        } else {
            prev
        }
    }
}

proof fn lemma_scan_target(ms: Seq<Marker>, pos: u64, n: int)
    ensures
        (spec_scan(ms, pos, n).in_intro || spec_scan(ms, pos, n).in_credits) ==> spec_scan(ms, pos, n).skip_to_ms is Some,
    decreases n,
{
    if n > 0 {
        lemma_scan_target(ms, pos, n - 1);
    }
}

/// What the markers say at a position (in milliseconds).
pub fn scan_markers(markers: &Vec<Marker>, position_ms: u64) -> (r: MarkerScan)
    ensures
        r == spec_scan(markers@, position_ms, markers@.len() as int),
        (r.in_intro || r.in_credits) ==> r.skip_to_ms is Some,
{
    let mut r = MarkerScan { in_intro: false, in_credits: false, skip_to_ms: None };
    let mut i: usize = 0;
    while i < markers.len()
        invariant
            i <= markers.len(),
            r == spec_scan(markers@, position_ms, i as int),
        decreases markers.len() - i,
    {
        let m = &markers[i];
        match (m.start_time_offset, m.end_time_offset) {
            (Some(start), Some(end)) => {
                if position_ms >= start && position_ms < end {
                    match &m.marker_type {
                        Some(t) => {
                            if str_eq(t.as_str(), "intro") {
                                r = MarkerScan { in_intro: true, skip_to_ms: Some(end), ..r };
                            } else if str_eq(t.as_str(), "credits") {
                                r = MarkerScan { in_credits: true, skip_to_ms: Some(end), ..r };
                            }
                        },
                        None => {},
                    }
                }
            },
            _ => {},
        }
        i += 1;
    }
    proof {
        lemma_scan_target(markers@, position_ms, markers@.len() as int);
    }
    r
}

/// The skip button: `Skip Intro` inside an intro, else `Skip Credits`
/// inside credits, else none.
pub open spec fn spec_skip_label(s: MarkerScan) -> Option<Seq<char>> {
    if s.in_intro {
        Some("Skip Intro"@)
    } else if s.in_credits {
        Some("Skip Credits"@)
    } else {
        None
    }
}

/// The label of the skip button, none when it is hidden.
pub fn skip_label(s: &MarkerScan) -> (r: Option<String>)
    ensures
        opt_view(r) == spec_skip_label(*s),
{
    if s.in_intro {
        Some(owned("Skip Intro"))
    } else if s.in_credits {
        Some(owned("Skip Credits"))
    } else {
        None
    }
}

/// The up-next card's countdown between ticks: the number shown (none
/// while the card is hidden), the ticks counted toward the next number
/// (two ticks to a number), and whether the user closed the card.
#[derive(Debug, Clone, Copy, PartialEq, Eq, Structural)]
pub struct UpNextState {
    pub countdown: Option<u8>,
    pub tick: u8,
    pub dismissed: bool,
}

/// What a tick does to the up-next card.
#[derive(Debug, Clone, Copy, PartialEq, Eq, Structural)]
pub enum UpNextAction {
    /// Nothing.
    Nothing,
    /// The card appears, counting down from five.
    ShowCard,
    /// The card shows this number.
    Count(u8),
    /// The countdown ran out: play the next item.
    PlayNext,
}

/// The number the countdown starts from.
pub const UP_NEXT_SECONDS: u8 = 5;

/// A state the player can be in between ticks: fewer than two ticks
/// counted, and a number no larger than the start.
pub open spec fn up_next_wf(s: UpNextState) -> bool {
    s.tick < 2 && (s.countdown matches Some(n) ==> n <= UP_NEXT_SECONDS)
}

/// One tick of the countdown. The card only runs when there is a next
/// item, the user did not close it and the item is not music; it appears
/// when the credits start or the end is near, and from then on counts down
/// one number every two ticks; when it reaches zero the next item plays.
pub open spec fn spec_up_next_step(s: UpNextState, in_credits: bool, has_next: bool, is_music: bool, near_end: bool) -> (UpNextState, UpNextAction) {
    if !has_next || s.dismissed || is_music {
        (s, UpNextAction::Nothing)
    } else {
        let appears = (in_credits || near_end) && s.countdown is None;
        let s1 = if appears { UpNextState { countdown: Some(UP_NEXT_SECONDS), tick: 0, ..s } } else { s };
        match s1.countdown {
            None => (s1, UpNextAction::Nothing),
            Some(secs) => {
                let t = s1.tick + 1;
                if t >= 2 {
                    let left = if secs > 0 { (secs - 1) as u8 } else { 0 };
                    if left == 0 {
                        (UpNextState { countdown: None, tick: 0, ..s1 }, UpNextAction::PlayNext)
                    } else {
                        (UpNextState { countdown: Some(left), tick: 0, ..s1 }, UpNextAction::Count(left))
                    }
                } else {
                    (UpNextState { tick: t as u8, ..s1 }, if appears { UpNextAction::ShowCard } else { UpNextAction::Nothing })
                }
            },
        }
    }
}

impl UpNextState {
    /// The state when an item starts: no card, nothing counted, not closed.
    pub fn new() -> (s: Self)
        ensures
            s == (UpNextState { countdown: None, tick: 0, dismissed: false }),
            up_next_wf(s),
    {
        UpNextState { countdown: None, tick: 0, dismissed: false }
    }

    /// The user closes the card: it stops and stays closed for this item.
    pub fn dismiss(&mut self)
        ensures
            *final(self) == (UpNextState { countdown: None, dismissed: true, ..*old(self) }),
    {
        self.countdown = None;
        self.dismissed = true;
    }

    /// One tick of the countdown; says what the card does.
    pub fn step(&mut self, in_credits: bool, has_next: bool, is_music: bool, near_end: bool) -> (a: UpNextAction)
        requires
            up_next_wf(*old(self)),
        ensures
            (*final(self), a) == spec_up_next_step(*old(self), in_credits, has_next, is_music, near_end),
            up_next_wf(*final(self)),
    {
        if !has_next || self.dismissed || is_music {
            return UpNextAction::Nothing;
        }
        let appears = (in_credits || near_end) && self.countdown.is_none();
        if appears {
            self.countdown = Some(UP_NEXT_SECONDS);
            self.tick = 0;
        }
        match self.countdown {
            None => UpNextAction::Nothing,
            Some(secs) => {
                let t = self.tick + 1;
                if t >= 2 {
                    self.tick = 0;
                    let left = secs.saturating_sub(1);
                    if left == 0 {
                        self.countdown = None;
                        UpNextAction::PlayNext
                    } else {
                        self.countdown = Some(left);
                        UpNextAction::Count(left)
                    }
                } else {
                    self.tick = t;
                    if appears { UpNextAction::ShowCard } else { UpNextAction::Nothing }
                }
            },
        }
    }
}

/// The actions of `n` ticks with the same conditions, in order.
pub open spec fn up_next_run(s: UpNextState, n: nat, in_credits: bool, has_next: bool, is_music: bool, near_end: bool) -> Seq<UpNextAction>
    decreases n,
{
    if n == 0 {
        Seq::empty()
    } else {
        let (s1, a) = spec_up_next_step(s, in_credits, has_next, is_music, near_end);
        seq![a] + up_next_run(s1, (n - 1) as nat, in_credits, has_next, is_music, near_end)
    }
}

/// Once the credits start (or the end is near) with a next item waiting,
/// the card appears on the first tick, shows four, three, two and one on
/// every second tick after it, and the tenth tick plays the next item.
pub proof fn law_up_next_counts_down_then_plays(in_credits: bool, near_end: bool)
    requires
        in_credits || near_end,
    ensures
        up_next_run(UpNextState { countdown: None, tick: 0, dismissed: false }, 10, in_credits, true, false, near_end) == seq![
            UpNextAction::ShowCard, UpNextAction::Count(4), UpNextAction::Nothing, UpNextAction::Count(3),
            UpNextAction::Nothing, UpNextAction::Count(2), UpNextAction::Nothing, UpNextAction::Count(1),
            UpNextAction::Nothing, UpNextAction::PlayNext,
        ],
{
    let s0 = UpNextState { countdown: None, tick: 0, dismissed: false };
    reveal_with_fuel(up_next_run, 11);
    assert(up_next_run(s0, 10, in_credits, true, false, near_end) =~= seq![
        UpNextAction::ShowCard, UpNextAction::Count(4), UpNextAction::Nothing, UpNextAction::Count(3),
        UpNextAction::Nothing, UpNextAction::Count(2), UpNextAction::Nothing, UpNextAction::Count(1),
        UpNextAction::Nothing, UpNextAction::PlayNext,
    ]);
}

/// A closed card stays closed: ticks change nothing and never play the
/// next item.
pub proof fn law_dismissed_card_never_plays(s: UpNextState, in_credits: bool, has_next: bool, is_music: bool, near_end: bool)
    requires
        s.dismissed,
    ensures
        spec_up_next_step(s, in_credits, has_next, is_music, near_end) == (s, UpNextAction::Nothing),
{
}

/// Playback is reported on its own every five seconds.
pub const TIMELINE_SYNC_INTERVAL_MS: u64 = 5000;

/// Whether a periodic report is due: always before the first one, then
/// once five seconds have passed since the last.
pub open spec fn spec_timeline_sync_due(last_sync_ms: Option<u64>, now_ms: u64) -> bool {
    match last_sync_ms {
        None => true,
        Some(last) => now_ms >= last && now_ms - last >= TIMELINE_SYNC_INTERVAL_MS,
    }
}

/// Whether a periodic report is due (times in milliseconds of a monotonic clock).
pub fn timeline_sync_due(last_sync_ms: Option<u64>, now_ms: u64) -> (b: bool)
    ensures
        b == spec_timeline_sync_due(last_sync_ms, now_ms),
{
    match last_sync_ms {
        None => true,
        Some(last) => now_ms >= last && now_ms - last >= TIMELINE_SYNC_INTERVAL_MS,
    }
}

/// Whether playing turned to paused or back since the last tick (nothing
/// on the first tick).
pub fn play_state_changed(previous: Option<bool>, is_playing: bool) -> (b: bool)
    ensures
        b == (previous matches Some(p) && p != is_playing),
{
    match previous {
        Some(p) => p != is_playing,
        None => false,
    }
}

/// The state reported for a player that plays or not.
pub fn timeline_state_for(is_playing: bool) -> (s: TimelineState)
    ensures
        s == (if is_playing { TimelineState::Playing } else { TimelineState::Paused }),
{
    if is_playing { TimelineState::Playing } else { TimelineState::Paused }
}

/// What playback reports are sent with.
pub struct SyncContext {
    pub base_url: String,
    pub token: String,
    pub rating_key: String,
    pub metadata_key: String,
}

/// The metadata key of an item: `/library/metadata/<rating key>`.
pub open spec fn spec_metadata_key(rating_key: Seq<char>) -> Seq<char> {
    "/library/metadata/"@ + rating_key
}

/// What playback reports are sent with; none without a token, a server or
/// an item.
pub fn sync_context(token: &Option<String>, base_url: &Option<String>, rating_key: &Option<String>) -> (r: Option<SyncContext>)
    ensures
        match (*token, *base_url, *rating_key) {
            (Some(t), Some(b), Some(k)) => r matches Some(c) && c.token@ == t@ && c.base_url@ == b@
                && c.rating_key@ == k@ && c.metadata_key@ == spec_metadata_key(k@),
            _ => r is None,
        },
{
    match (token, base_url, rating_key) {
        (Some(t), Some(b), Some(k)) => {
            let mut key = owned("/library/metadata/");
            key.append(k.as_str());
            Some(SyncContext { base_url: b.clone(), token: t.clone(), rating_key: k.clone(), metadata_key: key })
        },
        _ => None,
    }
}

/// The name over the player's title: the show of an episode, else the title.
pub fn player_show_name(item: &MetadataItem) -> (r: String)
    ensures
        r@ == match item.grandparent_title {
            Some(g) => g@,
            None => item.title@,
        },
{
    match &item.grandparent_title {
        Some(g) => g.clone(),
        None => item.title.clone(),
    }
}

} // verus!
