//! What the mini player shows around the item playing: a line under the
//! title, artwork, and the items before and after it. Finding the context
//! takes up to two requests; these functions decide what to ask for and
//! what to make of the answers.
use vstd::prelude::*;
use crate::display::{spec_track_subtitle, track_subtitle};
use crate::library::{
    position_from, reversed, spec_best_thumb, spec_display_subtitle, spec_thumb_url,
    AdjacentEpisodes, MetadataItem,
};
use crate::sort::{lemma_stable_sort_unique, sort_by_keys, stable_sorted, SortKey, SortKeyView};
use crate::text::{opt_view, str_eq};
use crate::transcode::{playback_url_for_item, spec_playback_url};

verus! {

broadcast use vstd::string::group_string_axioms;

/// The session the mini player plays under.
pub open spec fn mini_session() -> Seq<char> {
    "simplex-session"@
}

/// An item the mini player can switch to.
pub struct NavTarget {
    pub uri: String,
    pub title: String,
    pub rating_key: String,
}

/// What the mini player shows around the item playing.
pub struct MiniContext {
    pub subtitle: Option<String>,
    pub artwork_url: Option<String>,
    pub prev: Option<NavTarget>,
    pub next: Option<NavTarget>,
}

/// What is still to be fetched for the neighbours of an item.
pub enum ContextFetch {
    /// The episodes next to it.
    Adjacent,
    /// The children of its album, the parent with this rating key.
    AlbumTracks(String),
    /// Nothing: the item has no neighbours to show.
    Nothing,
}

/// An item whose type is `t`.
pub open spec fn has_type(item: MetadataItem, t: Seq<char>) -> bool {
    item.media_type matches Some(m) && m@ == t
}

/// The line under the title: artist and album for a track, the usual
/// subtitle otherwise.
pub open spec fn spec_context_subtitle(item: MetadataItem) -> Option<Seq<char>> {
    if has_type(item, "track"@) {
        spec_track_subtitle(item)
    } else {
        spec_display_subtitle(item)
    }
}

/// The line under the title in the mini player.
pub fn context_subtitle(item: &MetadataItem) -> (r: Option<String>)
    ensures
        opt_view(r) == spec_context_subtitle(*item),
{
    let is_track = match &item.media_type {
        Some(m) => str_eq(m.as_str(), "track"),
        None => false,
    };
    if is_track {
        track_subtitle(item)
    } else {
        item.display_subtitle()
    }
}

/// The artwork URL: the item's best thumbnail.
pub open spec fn spec_artwork_url(item: MetadataItem, base_url: Seq<char>, token: Seq<char>) -> Option<Seq<char>> {
    match spec_best_thumb(item) {
        Some(t) => Some(spec_thumb_url(base_url, token, t)),
        None => None,
    }
}

/// The context known from the item alone: its line and artwork, no neighbours.
pub fn base_context(item: &MetadataItem, base_url: &str, token: &str) -> (c: MiniContext)
    ensures
        opt_view(c.subtitle) == spec_context_subtitle(*item),
        opt_view(c.artwork_url) == spec_artwork_url(*item, base_url@, token@),
        c.prev is None,
        c.next is None,
{
    MiniContext {
        subtitle: context_subtitle(item),
        artwork_url: item.best_thumb_url(base_url, token),
        prev: None,
        next: None,
    }
}

/// What to fetch next for an item: the adjacent episodes of an episode, the
/// album of a track that has one, nothing otherwise.
pub open spec fn spec_context_fetch(item: MetadataItem) -> ContextFetchView {
    if has_type(item, "episode"@) {
        ContextFetchView::Adjacent
    } else if has_type(item, "track"@) && item.parent_rating_key is Some {
        ContextFetchView::AlbumTracks(item.parent_rating_key.unwrap()@)
    } else {
        ContextFetchView::Nothing
    }
}

/// A fetch as plain values.
pub enum ContextFetchView {
    Adjacent,
    AlbumTracks(Seq<char>),
    Nothing,
}

impl View for ContextFetch {
    type V = ContextFetchView;

    open spec fn view(&self) -> ContextFetchView {
        match self {
            ContextFetch::Adjacent => ContextFetchView::Adjacent,
            ContextFetch::AlbumTracks(k) => ContextFetchView::AlbumTracks(k@),
            ContextFetch::Nothing => ContextFetchView::Nothing,
        }
    }
}

/// What to fetch next for the neighbours of an item.
pub fn context_fetch(item: &MetadataItem) -> (r: ContextFetch)
    ensures
        r@ == spec_context_fetch(*item),
{
    let kind = match &item.media_type {
        Some(m) => if str_eq(m.as_str(), "episode") {
            1u8
        } else if str_eq(m.as_str(), "track") {
            2u8
        } else {
            0u8
        },
        None => 0u8,
    };
    if kind == 1 {
        ContextFetch::Adjacent
    } else if kind == 2 {
        match &item.parent_rating_key {
            Some(k) => ContextFetch::AlbumTracks(k.clone()),
            None => ContextFetch::Nothing,
        }
    } else {
        ContextFetch::Nothing
    }
}

/// A target as plain values: URI, title and rating key.
pub open spec fn target_view(t: NavTarget) -> (Seq<char>, Seq<char>, Seq<char>) {
    (t.uri@, t.title@, t.rating_key@)
}

/// An optional target as plain values.
pub open spec fn opt_target_view(t: Option<NavTarget>) -> Option<(Seq<char>, Seq<char>, Seq<char>)> {
    match t {
        Some(x) => Some(target_view(x)),
        None => None,
    }
}

/// The target for an item: where it plays from, its title and rating key;
/// none when it cannot be played.
pub open spec fn spec_target(item: MetadataItem, base_url: Seq<char>, token: Seq<char>) -> Option<(Seq<char>, Seq<char>, Seq<char>)> {
    match spec_playback_url(item, base_url, token, mini_session()) {
        Some(u) => Some((u, item.title@, item.rating_key@)),
        None => None,
    }
}

/// The target for an item.
pub fn nav_target(item: &MetadataItem, base_url: &str, token: &str) -> (r: Option<NavTarget>)
    ensures
        opt_target_view(r) == spec_target(*item, base_url@, token@),
{
    match playback_url_for_item(item, base_url, token, "simplex-session") {
        Some(uri) => Some(NavTarget { uri, title: item.title.clone(), rating_key: item.rating_key.clone() }),
        None => None,
    }
}

/// The target for an optional item.
pub open spec fn spec_opt_target(item: Option<MetadataItem>, base_url: Seq<char>, token: Seq<char>) -> Option<(Seq<char>, Seq<char>, Seq<char>)> {
    match item {
        Some(i) => spec_target(i, base_url, token),
        None => None,
    }
}

fn opt_nav_target(item: &Option<MetadataItem>, base_url: &str, token: &str) -> (r: Option<NavTarget>)
    ensures
        opt_target_view(r) == spec_opt_target(*item, base_url@, token@),
{
    match item {
        Some(i) => nav_target(i, base_url, token),
        None => None,
    }
}

/// The context of an episode, with the episodes before and after it as
/// neighbours (those that can be played).
pub fn context_with_episodes(ctx: MiniContext, adjacent: &AdjacentEpisodes, base_url: &str, token: &str) -> (r: MiniContext)
    ensures
        r.subtitle == ctx.subtitle,
        r.artwork_url == ctx.artwork_url,
        opt_target_view(r.prev) == spec_opt_target(adjacent.previous, base_url@, token@),
        opt_target_view(r.next) == spec_opt_target(adjacent.next, base_url@, token@),
{
    let prev = opt_nav_target(&adjacent.previous, base_url, token);
    let next = opt_nav_target(&adjacent.next, base_url, token);
    MiniContext { subtitle: ctx.subtitle, artwork_url: ctx.artwork_url, prev, next }
}

/// An item of type `track`.
pub open spec fn track_pred() -> spec_fn(MetadataItem) -> bool {
    |t: MetadataItem| has_type(t, "track"@)
}

/// Tracks by their number, unnumbered ones first.
pub open spec fn track_number_key(t: MetadataItem) -> SortKeyView {
    SortKeyView {
        major: match t.index {
            Some(i) => i as nat,
            None => 0,
        },
        minor: Seq::empty(),
    }
}

/// Tracks by their number, unnumbered ones first.
pub open spec fn track_number_order() -> spec_fn(MetadataItem) -> SortKeyView {
    |t: MetadataItem| track_number_key(t)
}

/// The tracks among an album's children, by number, ties in their order.
pub fn album_tracks(children: Vec<MetadataItem>) -> (r: Vec<MetadataItem>)
    ensures
        stable_sorted(children@.filter(track_pred()), r@, track_number_order()),
{
    let ghost all = children@;
    let ghost pred = track_pred();
    let mut tracks: Vec<MetadataItem> = Vec::new();
    let mut keys: Vec<SortKey> = Vec::new();
    let mut rest = reversed(children);
    assert(all.take(0) == Seq::<MetadataItem>::empty());
    proof {
        reveal(Seq::filter);
    }
    while rest.len() > 0
        invariant
            rest@.len() <= all.len(),
            rest@ == all.reverse().take(rest@.len() as int),
            pred == track_pred(),
            tracks@ == all.take(all.len() - rest@.len()).filter(pred),
            keys@.len() == tracks@.len(),
            forall|j: int| 0 <= j < tracks@.len() ==> #[trigger] keys@[j]@ == track_number_order()(tracks@[j]),
        decreases rest.len(),
    {
        let ghost k = all.len() - rest@.len();
        let item = rest.pop().unwrap();
        let ghost it = item;
        proof {
            assert(item == all.reverse()[rest@.len() as int]);
            assert(item == all[k]);
        }
        let is_track = match &item.media_type {
            Some(m) => str_eq(m.as_str(), "track"),
            None => false,
        };
        if is_track {
            let major: u64 = match item.index {
                Some(n) => n as u64,
                None => 0,
            };
            let key = SortKey { major, minor: Vec::new() };
            assert(key@ == track_number_key(item));
            keys.push(key);
            tracks.push(item);
        }
        proof {
            assert(all.take(k + 1).drop_last() == all.take(k));
            assert(all.take(k + 1).last() == it);
            reveal(Seq::filter);
            assert(all.take(k + 1).filter(pred) == if pred(it) {
                all.take(k).filter(pred).push(it)
            } else {
                all.take(k).filter(pred)
            });
            assert(rest@ == all.reverse().take(rest@.len() as int));
        }
    }
    assert(all.take(all.len() as int) == all);
    sort_by_keys(tracks, keys, Ghost(track_number_order()))
}

/// The neighbours' targets of the item with rating key `key` in `s`: none
/// when it is not there.
pub open spec fn spec_album_neighbours(s: Seq<MetadataItem>, key: Seq<char>, base_url: Seq<char>, token: Seq<char>) -> (Option<(Seq<char>, Seq<char>, Seq<char>)>, Option<(Seq<char>, Seq<char>, Seq<char>)>) {
    match position_from(s, key, 0) {
        None => (None, None),
        Some(p) => (
            if p > 0 { spec_target(s[p - 1], base_url, token) } else { None },
            if p + 1 < s.len() { spec_target(s[p + 1], base_url, token) } else { None },
        ),
    }
}

proof fn lemma_position_bounds(items: Seq<MetadataItem>, key: Seq<char>, k: int)
    ensures
        position_from(items, key, k) matches Some(i) ==> k <= i < items.len(),
    decreases items.len() - k,
{
    if 0 <= k < items.len() && items[k].rating_key@ != key {
        lemma_position_bounds(items, key, k + 1);
    }
}

fn position_of(items: &Vec<MetadataItem>, key: &str) -> (r: Option<usize>)
    ensures
        match position_from(items@, key@, 0) {
            Some(p) => r == Some(p as usize),
            None => r is None,
        },
        r matches Some(i) ==> i < items@.len(),
{
    proof {
        lemma_position_bounds(items@, key@, 0);
    }
    let mut i: usize = 0;
    while i < items.len()
        invariant
            i <= items.len(),
            position_from(items@, key@, 0) == position_from(items@, key@, i as int),
        decreases items.len() - i,
    {
        if str_eq(items[i].rating_key.as_str(), key) {
            return Some(i);
        }
        i += 1;
    }
    None
}

/// The context of a track, with the tracks before and after it on its album
/// as neighbours: the album's tracks by number, the item found by its rating
/// key; none when it is not among them.
pub fn context_with_album(ctx: MiniContext, children: Vec<MetadataItem>, rating_key: &str, base_url: &str, token: &str) -> (r: MiniContext)
    ensures
        r.subtitle == ctx.subtitle,
        r.artwork_url == ctx.artwork_url,
        forall|s: Seq<MetadataItem>| stable_sorted(children@.filter(track_pred()), s, track_number_order())
            ==> (opt_target_view(r.prev), opt_target_view(r.next)) == spec_album_neighbours(s, rating_key@, base_url@, token@),
{
    let ghost filtered = children@.filter(track_pred());
    let tracks = album_tracks(children);
    let ghost s = tracks@;
    proof {
        lemma_position_bounds(s, rating_key@, 0);
    }
    let (prev, next) = match position_of(&tracks, rating_key) {
        Some(i) => (
            if i > 0 { nav_target(&tracks[i - 1], base_url, token) } else { None },
            if i + 1 < tracks.len() { nav_target(&tracks[i + 1], base_url, token) } else { None },
        ),
        None => (None, None),
    };
    proof {
        assert forall|s2: Seq<MetadataItem>| stable_sorted(filtered, s2, track_number_order()) implies
            (opt_target_view(prev), opt_target_view(next)) == spec_album_neighbours(s2, rating_key@, base_url@, token@) by {
            lemma_stable_sort_unique(filtered, s2, s, track_number_order());
        }
    }
    MiniContext { subtitle: ctx.subtitle, artwork_url: ctx.artwork_url, prev, next }
}

} // verus!
