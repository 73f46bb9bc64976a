//! What an item's detail page shows: the header lines, the links up the
//! hierarchy, the play and collection buttons, the summary, which list of
//! children follows, and the lines of each row in those lists.
use vstd::prelude::*;
use crate::display::{
    capitalize, format_duration, spec_capitalize, spec_format_duration, spec_truncate_text, truncate_text,
};
use crate::library::{spec_display_subtitle, MediaInfo, MetadataItem};
use crate::text::{decimal, decimal_string, join, opt_view, owned, seq_join, str_eq, to_uppercase, uppercase, views};

verus! {

broadcast use vstd::string::group_string_axioms;

/// The separator between the parts of a meta line.
pub open spec fn meta_separator() -> Seq<char> {
    " \u{2022} "@
}

/// A one-element sequence for a present value, an empty one otherwise.
pub open spec fn one(o: Option<Seq<char>>) -> Seq<Seq<char>> {
    match o {
        Some(x) => seq![x],
        None => Seq::empty(),
    }
}

/// An item of type `t`.
pub open spec fn is_type(item: MetadataItem, t: Seq<char>) -> bool {
    item.media_type matches Some(m) && m@ == t
}

/// The first media version of an item.
pub open spec fn first_media(item: MetadataItem) -> Option<MediaInfo> {
    match item.media {
        Some(ms) => if ms@.len() > 0 { Some(ms@[0]) } else { None },
        None => None,
    }
}

/// The parts of the line under the title: year, type, running time, and
/// the first version's resolution and video codec.
pub open spec fn spec_meta_parts(item: MetadataItem) -> Seq<Seq<char>> {
    one(match item.year { Some(y) => Some(decimal(y as nat)), None => None })
        + one(match item.media_type { Some(t) => Some(spec_capitalize(t@)), None => None })
        + one(match item.duration { Some(d) => Some(spec_format_duration(d)), None => None })
        + match first_media(item) {
            Some(m) => one(match m.video_resolution { Some(r) => Some(r@ + "p"@), None => None })
                + one(match m.video_codec { Some(c) => Some(uppercase(c@)), None => None }),
            None => Seq::empty(),
        }
}

fn push_view(v: &mut Vec<String>, s: String)
    ensures
        views(final(v)@) == views(old(v)@).push(s@),
{
    let ghost before = views(v@);
    v.push(s);
    assert(views(v@) == before.push(v@.last()@));
}

fn push_opt(v: &mut Vec<String>, o: Option<String>)
    ensures
        views(final(v)@) == views(old(v)@) + one(opt_view(o)),
{
    match o {
        Some(s) => {
            let ghost x = s@;
            push_view(v, s);
            assert(views(old(v)@).push(x) == views(old(v)@) + seq![x]);
        },
        None => {
            assert(views(v@) == views(v@) + Seq::<Seq<char>>::empty());
        },
    }
}

/// The parts of the line under the title.
pub fn meta_parts(item: &MetadataItem) -> (r: Vec<String>)
    ensures
        views(r@) == spec_meta_parts(*item),
{
    let mut parts: Vec<String> = Vec::new();
    assert(views(parts@) == Seq::<Seq<char>>::empty());
    push_opt(&mut parts, match item.year { Some(y) => Some(decimal_string(y as u64)), None => None });
    push_opt(&mut parts, match &item.media_type { Some(t) => Some(capitalize(t.as_str())), None => None });
    push_opt(&mut parts, match item.duration { Some(d) => Some(format_duration(d)), None => None });
    let ghost head = views(parts@);
    match &item.media {
        Some(ms) => if ms.len() > 0 {
            let m = &ms[0];
            push_opt(&mut parts, match &m.video_resolution {
                Some(res) => {
                    let mut s = res.clone();
                    s.append("p");
                    Some(s)
                },
                None => None,
            });
            push_opt(&mut parts, match &m.video_codec { Some(c) => Some(to_uppercase(c.as_str())), None => None });
            assert(views(parts@) == head + (one(match m.video_resolution { Some(r) => Some(r@ + "p"@), None => None })
                + one(match m.video_codec { Some(c) => Some(uppercase(c@)), None => None })));
        } else {
            assert(views(parts@) == head + Seq::<Seq<char>>::empty());
        },
        None => {
            assert(views(parts@) == head + Seq::<Seq<char>>::empty());
        },
    }
    parts
}

/// Parts joined into one line; none when there are no parts.
pub open spec fn spec_meta_line(parts: Seq<Seq<char>>) -> Option<Seq<char>> {
    if parts.len() == 0 {
        None
    } else {
        Some(seq_join(parts, meta_separator()))
    }
}

/// Parts joined into one line, none when there are no parts.
pub fn meta_line(parts: &Vec<String>) -> (r: Option<String>)
    ensures
        opt_view(r) == spec_meta_line(views(parts@)),
{
    if parts.len() == 0 {
        None
    } else {
        Some(join(parts, " \u{2022} "))
    }
}

/// A link to another item's page, with the label before it.
pub struct HierarchyLink {
    pub label: String,
    pub name: String,
    pub rating_key: String,
}

/// A link as plain values: label, name, rating key.
pub open spec fn link_view(l: Option<HierarchyLink>) -> Option<(Seq<char>, Seq<char>, Seq<char>)> {
    match l {
        Some(x) => Some((x.label@, x.name@, x.rating_key@)),
        None => None,
    }
}

/// The link to the show, for an item that knows its show's title and key.
pub open spec fn spec_show_link(item: MetadataItem) -> Option<(Seq<char>, Seq<char>, Seq<char>)> {
    match (item.grandparent_title, item.grandparent_rating_key) {
        (Some(t), Some(k)) => Some(("Show:"@, t@, k@)),
        _ => None,
    }
}

/// The link to the show.
pub fn show_link(item: &MetadataItem) -> (r: Option<HierarchyLink>)
    ensures
        link_view(r) == spec_show_link(*item),
{
    match (&item.grandparent_title, &item.grandparent_rating_key) {
        (Some(t), Some(k)) => Some(HierarchyLink { label: owned("Show:"), name: t.clone(), rating_key: k.clone() }),
        _ => None,
    }
}

/// The label of the parent link: album of a track, season of an episode.
pub open spec fn spec_parent_label(item: MetadataItem) -> Seq<char> {
    if is_type(item, "track"@) {
        "Album:"@
    } else if is_type(item, "episode"@) {
        "Season:"@
    } else {
        "Parent:"@
    }
}

/// The link to the parent, for an item that knows its parent's title and key.
pub open spec fn spec_parent_link(item: MetadataItem) -> Option<(Seq<char>, Seq<char>, Seq<char>)> {
    match (item.parent_title, item.parent_rating_key) {
        (Some(t), Some(k)) => Some((spec_parent_label(item), t@, k@)),
        _ => None,
    }
}

/// Whether an item's type is `t`.
fn type_is(item: &MetadataItem, t: &str) -> (b: bool)
    ensures
        b == is_type(*item, t@),
{
    match &item.media_type {
        Some(m) => str_eq(m.as_str(), t),
        None => false,
    }
}

/// The link to the parent.
pub fn parent_link(item: &MetadataItem) -> (r: Option<HierarchyLink>)
    ensures
        link_view(r) == spec_parent_link(*item),
{
    match (&item.parent_title, &item.parent_rating_key) {
        (Some(t), Some(k)) => {
            let label = if type_is(item, "track") {
                owned("Album:")
            } else if type_is(item, "episode") {
                owned("Season:")
            } else {
                owned("Parent:")
            };
            Some(HierarchyLink { label, name: t.clone(), rating_key: k.clone() })
        },
        _ => None,
    }
}

/// The play buttons of a playable item.
#[derive(Debug, PartialEq, Eq, Structural)]
pub enum PlayButtons {
    /// Resume from the saved position (in milliseconds), or start over.
    ResumeOrRestart { offset_ms: u64 },
    /// Play from the beginning.
    Play,
}

/// Items of these types are played from their page: movies, episodes,
/// clips, tracks, and items of no type.
pub open spec fn is_playable_type(item: MetadataItem) -> bool {
    item.media_type is None || is_type(item, "movie"@) || is_type(item, "episode"@)
        || is_type(item, "clip"@) || is_type(item, "track"@)
}

/// The item has at least one media version.
pub open spec fn has_media(item: MetadataItem) -> bool {
    item.media matches Some(ms) && ms@.len() > 0
}

/// The play buttons of a page: none unless the item is playable and has
/// media; resume-or-restart when it was started, else play.
pub open spec fn spec_play_buttons(item: MetadataItem) -> Option<PlayButtons> {
    if is_playable_type(item) && has_media(item) {
        Some(match item.view_offset {
            Some(o) if o > 0 => PlayButtons::ResumeOrRestart { offset_ms: o },
            _ => PlayButtons::Play,
        })
    } else {
        None
    }
}

/// The play buttons of a page.
pub fn play_buttons(item: &MetadataItem) -> (r: Option<PlayButtons>)
    ensures
        r == spec_play_buttons(*item),
{
    let playable = match &item.media_type {
        None => true,
        Some(_) => type_is(item, "movie") || type_is(item, "episode") || type_is(item, "clip") || type_is(item, "track"),
    };
    let has = match &item.media {
        Some(ms) => ms.len() > 0,
        None => false,
    };
    if playable && has {
        Some(match item.view_offset {
            Some(o) => if o > 0 { PlayButtons::ResumeOrRestart { offset_ms: o } } else { PlayButtons::Play },
            None => PlayButtons::Play,
        })
    } else {
        None
    }
}

/// The label of the resume button.
pub open spec fn spec_resume_label(offset_ms: u64) -> Seq<char> {
    "Resume from "@ + spec_format_duration(offset_ms)
}

/// The label of the resume button.
pub fn resume_label(offset_ms: u64) -> (r: String)
    ensures
        r@ == spec_resume_label(offset_ms),
{
    let mut r = owned("Resume from ");
    let d = format_duration(offset_ms);
    r.append(d.as_str());
    r
}

/// A button that opens the parent's page.
pub struct ParentButton {
    pub label: String,
    pub parent_key: String,
    pub tooltip: String,
}

/// A parent button as plain values: label, parent key, tooltip.
pub open spec fn parent_button_view(b: Option<ParentButton>) -> Option<(Seq<char>, Seq<char>, Seq<char>)> {
    match b {
        Some(x) => Some((x.label@, x.parent_key@, x.tooltip@)),
        None => None,
    }
}

/// The button beside the play buttons that opens the whole season of an
/// episode or the whole album of a track, when the parent is known.
pub open spec fn spec_parent_button(item: MetadataItem) -> Option<(Seq<char>, Seq<char>, Seq<char>)> {
    if spec_play_buttons(item) is None {
        None
    } else {
        match (item.parent_title, item.parent_rating_key) {
            (Some(t), Some(k)) => if is_type(item, "episode"@) {
                Some(("View Full Season"@, k@, "Open "@ + t@))
            } else if is_type(item, "track"@) {
                Some(("View Full Album"@, k@, "Open "@ + t@))
            } else {
                None
            },
            _ => None,
        }
    }
}

/// The button that opens the parent's page.
pub fn parent_button(item: &MetadataItem) -> (r: Option<ParentButton>)
    ensures
        parent_button_view(r) == spec_parent_button(*item),
{
    if play_buttons(item).is_none() {
        return None;
    }
    match (&item.parent_title, &item.parent_rating_key) {
        (Some(t), Some(k)) => {
            let label = if type_is(item, "episode") {
                owned("View Full Season")
            } else if type_is(item, "track") {
                owned("View Full Album")
            } else {
                return None;
            };
            let mut tooltip = owned("Open ");
            tooltip.append(t.as_str());
            Some(ParentButton { label, parent_key: k.clone(), tooltip })
        },
        _ => None,
    }
}

/// The saved position of an item that was started.
pub open spec fn spec_resume_offset(item: MetadataItem) -> Option<u64> {
    match item.view_offset {
        Some(o) if o > 0 => Some(o),
        _ => None,
    }
}

/// The saved position of an item that was started.
pub fn resume_offset_ms(item: &MetadataItem) -> (r: Option<u64>)
    ensures
        r == spec_resume_offset(*item),
{
    match item.view_offset {
        Some(o) => if o > 0 { Some(o) } else { None },
        None => None,
    }
}

/// A button of a show, album or artist page.
pub enum CollectionAction {
    /// Play the show's next episode, from its saved position if any.
    PlayNextEpisode { label: String, offset_ms: Option<u64> },
    /// Play the first child ("Play Album").
    PlayFirstChild,
    /// Play a child picked by the clock ("Shuffle").
    ShuffleChildren,
    /// Play the first popular track ("Play All").
    PlayFirstPopular,
    /// Play a popular track picked by the clock ("Shuffle").
    ShufflePopular,
}

/// A collection button as plain values.
pub enum CollectionActionView {
    PlayNextEpisode { label: Seq<char>, offset_ms: Option<u64> },
    PlayFirstChild,
    ShuffleChildren,
    PlayFirstPopular,
    ShufflePopular,
}

impl View for CollectionAction {
    type V = CollectionActionView;

    open spec fn view(&self) -> CollectionActionView {
        match self {
            CollectionAction::PlayNextEpisode { label, offset_ms } => CollectionActionView::PlayNextEpisode { label: label@, offset_ms: *offset_ms },
            CollectionAction::PlayFirstChild => CollectionActionView::PlayFirstChild,
            CollectionAction::ShuffleChildren => CollectionActionView::ShuffleChildren,
            CollectionAction::PlayFirstPopular => CollectionActionView::PlayFirstPopular,
            CollectionAction::ShufflePopular => CollectionActionView::ShufflePopular,
        }
    }
}

/// The label of the next-episode button: resume it when it was started,
/// else play it.
pub open spec fn spec_next_episode_label(ep: MetadataItem) -> Seq<char> {
    if spec_resume_offset(ep) is Some {
        "Resume \""@ + ep.title@ + "\""@
    } else {
        "Play \""@ + ep.title@ + "\""@
    }
}

/// The buttons that play from a collection, from one to the next.
pub open spec fn spec_count_actions(count: nat, first: CollectionActionView, shuffle: CollectionActionView) -> Seq<CollectionActionView> {
    (if count > 0 { seq![first] } else { Seq::empty() }) + (if count > 1 { seq![shuffle] } else { Seq::empty() })
}

/// The buttons of a show, album or artist page: the next episode of a show,
/// play and shuffle of an album's children (shuffle only with more than
/// one), play-all and shuffle of an artist's popular tracks.
pub open spec fn spec_collection_actions(item: MetadataItem, next_episode: Option<MetadataItem>, children_count: nat, popular_count: Option<nat>) -> Seq<CollectionActionView> {
    if is_type(item, "show"@) {
        match next_episode {
            Some(ep) => seq![CollectionActionView::PlayNextEpisode { label: spec_next_episode_label(ep), offset_ms: spec_resume_offset(ep) }],
            None => Seq::empty(),
        }
    } else if is_type(item, "album"@) {
        spec_count_actions(children_count, CollectionActionView::PlayFirstChild, CollectionActionView::ShuffleChildren)
    } else if is_type(item, "artist"@) {
        match popular_count {
            Some(n) => spec_count_actions(n, CollectionActionView::PlayFirstPopular, CollectionActionView::ShufflePopular),
            None => Seq::empty(),
        }
    } else {
        Seq::empty()
    }
}

/// The views of a list of collection buttons.
pub open spec fn action_views(v: Seq<CollectionAction>) -> Seq<CollectionActionView> {
    v.map_values(|a: CollectionAction| a@)
}

fn count_actions(count: usize, first: CollectionAction, shuffle: CollectionAction) -> (r: Vec<CollectionAction>)
    ensures
        action_views(r@) == spec_count_actions(count as nat, first@, shuffle@),
{
    let mut r: Vec<CollectionAction> = Vec::new();
    let ghost f = first@;
    let ghost sh = shuffle@;
    if count > 0 {
        r.push(first);
    }
    if count > 1 {
        r.push(shuffle);
    }
    assert(action_views(r@) == spec_count_actions(count as nat, f, sh));
    r
}

/// The buttons of a show, album or artist page, given the show's next
/// episode, the number of children and the number of the artist's popular
/// tracks (`None` when the discography is unknown).
pub fn collection_actions(item: &MetadataItem, next_episode: &Option<MetadataItem>, children_count: usize, popular_count: Option<usize>) -> (r: Vec<CollectionAction>)
    ensures
        action_views(r@) == spec_collection_actions(*item, *next_episode, children_count as nat, match popular_count {
            Some(n) => Some(n as nat),
            None => None,
        }),
{
    if type_is(item, "show") {
        match next_episode {
            Some(ep) => {
                let offset = resume_offset_ms(ep);
                let mut label = if offset.is_some() { owned("Resume \"") } else { owned("Play \"") };
                label.append(ep.title.as_str());
                label.append("\"");
                let v = vec![CollectionAction::PlayNextEpisode { label, offset_ms: offset }];
                assert(action_views(v@) =~= spec_collection_actions(*item, *next_episode, children_count as nat, match popular_count {
                    Some(n) => Some(n as nat),
                    None => None,
                }));
                v
            },
            None => {
                let v: Vec<CollectionAction> = Vec::new();
                assert(action_views(v@) =~= Seq::<CollectionActionView>::empty());
                v
            },
        }
    } else if type_is(item, "album") {
        count_actions(children_count, CollectionAction::PlayFirstChild, CollectionAction::ShuffleChildren)
    } else if type_is(item, "artist") {
        match popular_count {
            Some(n) => count_actions(n, CollectionAction::PlayFirstPopular, CollectionAction::ShufflePopular),
            None => {
                let v: Vec<CollectionAction> = Vec::new();
                assert(action_views(v@) =~= Seq::<CollectionActionView>::empty());
                v
            },
        }
    } else {
        let v: Vec<CollectionAction> = Vec::new();
        assert(action_views(v@) =~= Seq::<CollectionActionView>::empty());
        v
    }
}

/// The label of a collection button.
pub open spec fn spec_action_label(a: CollectionActionView) -> Seq<char> {
    match a {
        CollectionActionView::PlayNextEpisode { label, .. } => label,
        CollectionActionView::PlayFirstChild => "Play Album"@,
        CollectionActionView::ShuffleChildren => "Shuffle"@,
        CollectionActionView::PlayFirstPopular => "Play All"@,
        CollectionActionView::ShufflePopular => "Shuffle"@,
    }
}

impl CollectionAction {
    /// The label of the button.
    pub fn label(&self) -> (r: String)
        ensures
            r@ == spec_action_label(self@),
    {
        match self {
            CollectionAction::PlayNextEpisode { label, .. } => label.clone(),
            CollectionAction::PlayFirstChild => owned("Play Album"),
            CollectionAction::ShuffleChildren => owned("Shuffle"),
            CollectionAction::PlayFirstPopular => owned("Play All"),
            CollectionAction::ShufflePopular => owned("Shuffle"),
        }
    }
}

/// The summary under the buttons: none when empty; an artist's is cut to
/// 800 characters.
pub open spec fn spec_detail_summary(item: MetadataItem) -> Option<Seq<char>> {
    match item.summary {
        Some(t) => if t@.len() == 0 {
            None
        } else if is_type(item, "artist"@) {
            Some(spec_truncate_text(t@, 800))
        } else {
            Some(t@)
        },
        None => None,
    }
}

/// The summary under the buttons.
pub fn detail_summary(item: &MetadataItem) -> (r: Option<String>)
    ensures
        opt_view(r) == spec_detail_summary(*item),
{
    match &item.summary {
        Some(t) => if t.unicode_len() == 0 {
            None
        } else if type_is(item, "artist") {
            Some(truncate_text(t.as_str(), 800))
        } else {
            Some(t.clone())
        },
        None => None,
    }
}

/// The list that follows the header.
#[derive(Debug, PartialEq, Eq, Structural)]
pub enum ChildrenSection {
    /// An artist's popular tracks, albums, and EPs and singles.
    Discography,
    /// A season's episodes.
    Episodes,
    /// An album's tracks.
    Tracks,
    /// A show's seasons.
    Seasons,
    /// Any other item's children, as posters.
    Items,
    /// No list.
    Nothing,
}

/// The list that follows the header: the discography when there is one,
/// else the children by the item's type, none without children.
pub open spec fn spec_children_section(item: MetadataItem, has_discography: bool, children_count: nat) -> ChildrenSection {
    if has_discography {
        ChildrenSection::Discography
    } else if children_count == 0 {
        ChildrenSection::Nothing
    } else if is_type(item, "season"@) {
        ChildrenSection::Episodes
    } else if is_type(item, "album"@) {
        ChildrenSection::Tracks
    } else if is_type(item, "show"@) {
        ChildrenSection::Seasons
    } else {
        ChildrenSection::Items
    }
}

/// The list that follows the header.
pub fn children_section(item: &MetadataItem, has_discography: bool, children_count: usize) -> (r: ChildrenSection)
    ensures
        r == spec_children_section(*item, has_discography, children_count as nat),
{
    if has_discography {
        ChildrenSection::Discography
    } else if children_count == 0 {
        ChildrenSection::Nothing
    } else if type_is(item, "season") {
        ChildrenSection::Episodes
    } else if type_is(item, "album") {
        ChildrenSection::Tracks
    } else if type_is(item, "show") {
        ChildrenSection::Seasons
    } else {
        ChildrenSection::Items
    }
}

/// The heading of a list.
pub open spec fn spec_section_heading(s: ChildrenSection) -> Option<Seq<char>> {
    match s {
        ChildrenSection::Episodes => Some("Episodes"@),
        ChildrenSection::Tracks => Some("Tracks"@),
        ChildrenSection::Seasons => Some("Seasons"@),
        ChildrenSection::Items => Some("Items"@),
        _ => None,
    }
}

/// The heading of a list; the discography has headings of its own.
pub fn section_heading(s: &ChildrenSection) -> (r: Option<String>)
    ensures
        opt_view(r) == spec_section_heading(*s),
{
    match s {
        ChildrenSection::Episodes => Some(owned("Episodes")),
        ChildrenSection::Tracks => Some(owned("Tracks")),
        ChildrenSection::Seasons => Some(owned("Seasons")),
        ChildrenSection::Items => Some(owned("Items")),
        _ => None,
    }
}

/// The parts of an episode row's second line: running time and air date.
pub open spec fn spec_episode_meta_parts(ep: MetadataItem) -> Seq<Seq<char>> {
    one(match ep.duration { Some(d) => Some(spec_format_duration(d)), None => None })
        + one(opt_view(ep.originally_available_at))
}

/// The parts of an episode row's second line.
pub fn episode_meta_parts(ep: &MetadataItem) -> (r: Vec<String>)
    ensures
        views(r@) == spec_episode_meta_parts(*ep),
{
    let mut parts: Vec<String> = Vec::new();
    assert(views(parts@) == Seq::<Seq<char>>::empty());
    push_opt(&mut parts, match ep.duration { Some(d) => Some(format_duration(d)), None => None });
    push_opt(&mut parts, match &ep.originally_available_at { Some(a) => Some(a.clone()), None => None });
    parts
}

/// An episode row's summary: none when empty, else cut to 120 characters.
pub open spec fn spec_episode_summary(ep: MetadataItem) -> Option<Seq<char>> {
    match ep.summary {
        Some(t) => if t@.len() == 0 { None } else { Some(spec_truncate_text(t@, 120)) },
        None => None,
    }
}

/// An episode row's summary.
pub fn episode_summary(ep: &MetadataItem) -> (r: Option<String>)
    ensures
        opt_view(r) == spec_episode_summary(*ep),
{
    match &ep.summary {
        Some(t) => if t.unicode_len() == 0 { None } else { Some(truncate_text(t.as_str(), 120)) },
        None => None,
    }
}

/// A row shows a progress bar for an episode started and not finished,
/// of known length.
pub open spec fn spec_shows_progress(ep: MetadataItem) -> bool {
    match (ep.view_offset, ep.duration) {
        (Some(o), Some(d)) => o > 0 && d > 0,
        _ => false,
    }
}

/// Whether a row shows a progress bar.
pub fn shows_progress(ep: &MetadataItem) -> (b: bool)
    ensures
        b == spec_shows_progress(*ep),
{
    match (ep.view_offset, ep.duration) {
        (Some(o), Some(d)) => o > 0 && d > 0,
        _ => false,
    }
}

/// A row shows the watched mark for an episode seen and not restarted.
pub open spec fn spec_shows_watched_mark(ep: MetadataItem) -> bool {
    (ep.view_count matches Some(c) && c > 0) && (match ep.view_offset { Some(o) => o == 0, None => true })
}

/// Whether a row shows the watched mark.
pub fn shows_watched_mark(ep: &MetadataItem) -> (b: bool)
    ensures
        b == spec_shows_watched_mark(*ep),
{
    let seen = match ep.view_count {
        Some(c) => c > 0,
        None => false,
    };
    let offset = match ep.view_offset {
        Some(o) => o,
        None => 0,
    };
    seen && offset == 0
}

/// The line under a season's poster: how much of it was watched when the
/// counts are known, else how many episodes it has, else its usual subtitle.
pub open spec fn spec_season_subtitle(season: MetadataItem) -> Option<Seq<char>> {
    match (season.viewed_leaf_count, season.leaf_count) {
        (Some(v), Some(t)) if t > 0 => if v >= t {
            Some("All "@ + decimal(t as nat) + " episodes watched"@)
        } else if v > 0 {
            Some(decimal(v as nat) + " of "@ + decimal(t as nat) + " watched"@)
        } else {
            Some(decimal(t as nat) + " episodes"@)
        },
        (_, Some(t)) => Some(decimal(t as nat) + " episodes"@),
        _ => spec_display_subtitle(season),
    }
}

/// The line under a season's poster.
pub fn season_subtitle(season: &MetadataItem) -> (r: Option<String>)
    ensures
        opt_view(r) == spec_season_subtitle(*season),
{
    match season.leaf_count {
        Some(t) => {
            let total = decimal_string(t as u64);
            match season.viewed_leaf_count {
                Some(v) => if t > 0 {
                    if v >= t {
                        let mut r = owned("All ");
                        r.append(total.as_str());
                        r.append(" episodes watched");
                        return Some(r);
                    } else if v > 0 {
                        let mut r = decimal_string(v as u64);
                        r.append(" of ");
                        r.append(total.as_str());
                        r.append(" watched");
                        return Some(r);
                    }
                },
                None => {},
            }
            let mut r = total;
            r.append(" episodes");
            Some(r)
        },
        None => season.display_subtitle(),
    }
}

/// How a popular track names its album.
pub enum AlbumRef {
    /// A link to the album's page.
    Link { name: String, rating_key: String },
    /// Text only, for an album without a key.
    Text(String),
    /// Nothing, when the album is unknown.
    Nothing,
}

/// An album reference as plain values.
pub enum AlbumRefView {
    Link { name: Seq<char>, rating_key: Seq<char> },
    Text(Seq<char>),
    Nothing,
}

impl View for AlbumRef {
    type V = AlbumRefView;

    open spec fn view(&self) -> AlbumRefView {
        match self {
            AlbumRef::Link { name, rating_key } => AlbumRefView::Link { name: name@, rating_key: rating_key@ },
            AlbumRef::Text(t) => AlbumRefView::Text(t@),
            AlbumRef::Nothing => AlbumRefView::Nothing,
        }
    }
}

/// How a popular track names its album: a link when the album's key is
/// known (named `Album` when its title is not), a bullet and the title when
/// only the title is.
pub open spec fn spec_album_ref(track: MetadataItem) -> AlbumRefView {
    match track.parent_rating_key {
        Some(k) => AlbumRefView::Link {
            name: match track.parent_title { Some(t) => t@, None => "Album"@ },
            rating_key: k@,
        },
        None => match track.parent_title {
            Some(t) => AlbumRefView::Text("\u{2022} "@ + t@),
            None => AlbumRefView::Nothing,
        },
    }
}

/// How a popular track names its album.
pub fn album_ref(track: &MetadataItem) -> (r: AlbumRef)
    ensures
        r@ == spec_album_ref(*track),
{
    match &track.parent_rating_key {
        Some(k) => AlbumRef::Link {
            name: match &track.parent_title { Some(t) => t.clone(), None => owned("Album") },
            rating_key: k.clone(),
        },
        None => match &track.parent_title {
            Some(t) => {
                let mut s = owned("\u{2022} ");
                s.append(t.as_str());
                AlbumRef::Text(s)
            },
            None => AlbumRef::Nothing,
        },
    }
}

/// Where the back button of a detail page leads.
pub enum BackNavigation {
    /// To the parent's page: it becomes the current item, no parent is
    /// remembered, and the stack passes through `via_view` so that the
    /// page loads again.
    ParentDetail { item_key: String, via_view: String },
    /// To this view.
    ShowView(String),
}

/// A back navigation as plain values.
pub enum BackNavigationView {
    ParentDetail { item_key: Seq<char>, via_view: Seq<char> },
    ShowView(Seq<char>),
}

impl View for BackNavigation {
    type V = BackNavigationView;

    open spec fn view(&self) -> BackNavigationView {
        match self {
            BackNavigation::ParentDetail { item_key, via_view } => BackNavigationView::ParentDetail { item_key: item_key@, via_view: via_view@ },
            BackNavigation::ShowView(v) => BackNavigationView::ShowView(v@),
        }
    }
}

/// The view to go back to: the recorded one, else the on-deck view.
pub open spec fn back_view(previous_view: Option<Seq<char>>) -> Seq<char> {
    match previous_view {
        Some(v) => v,
        None => "on-deck"@,
    }
}

/// Where the back button leads: up to the parent when the page was opened
/// from a child, else back to the view it came from.
pub open spec fn spec_back_navigation(parent_key: Option<Seq<char>>, previous_view: Option<Seq<char>>) -> BackNavigationView {
    match parent_key {
        Some(k) => BackNavigationView::ParentDetail { item_key: k, via_view: back_view(previous_view) },
        None => BackNavigationView::ShowView(back_view(previous_view)),
    }
}

/// Where the back button of a detail page leads.
pub fn back_navigation(parent_key: &Option<String>, previous_view: &Option<String>) -> (r: BackNavigation)
    ensures
        r@ == spec_back_navigation(opt_view(*parent_key), opt_view(*previous_view)),
{
    let view = match previous_view {
        Some(v) => v.clone(),
        None => owned("on-deck"),
    };
    match parent_key {
        Some(k) => BackNavigation::ParentDetail { item_key: k.clone(), via_view: view },
        None => BackNavigation::ShowView(view),
    }
}

/// What a detail page fetches besides the item and its children.
#[derive(Debug, PartialEq, Eq, Structural)]
pub struct DetailFetch {
    /// An artist's discography.
    pub discography: bool,
    /// A show's next episode.
    pub next_episode: bool,
}

/// What a detail page fetches besides the item and its children.
pub fn detail_fetch(item: &MetadataItem) -> (r: DetailFetch)
    ensures
        r.discography == is_type(*item, "artist"@),
        r.next_episode == is_type(*item, "show"@),
{
    DetailFetch { discography: type_is(item, "artist"), next_episode: type_is(item, "show") }
}

/// The nanoseconds since the Unix epoch by the system clock (std's
/// `SystemTime::now().duration_since(UNIX_EPOCH)`), none when the clock is
/// before the epoch. What the clock reads is not stated.
#[verifier::external_body]
fn nanos_since_epoch() -> (r: Option<u128>) {
    match std::time::SystemTime::now().duration_since(std::time::UNIX_EPOCH) {
        Ok(d) => Some(d.as_nanos()),
        Err(_) => None,
    }
}

/// The index a clock reading picks among `len` items: the reading, cut to
/// a `usize`, modulo `len`; the first without a reading.
pub fn index_from_clock(nanos: Option<u128>, len: usize) -> (r: usize)
    requires
        len > 0,
    ensures
        r == match nanos {
            Some(n) => ((n as usize) % len) as usize,
            None => 0,
        },
{
    match nanos {
        Some(n) => (n as usize) % len,
        None => 0,
    }
}

/// An index below `len` picked by the clock, for shuffling; 0 for no items.
pub fn pseudo_random_index(len: usize) -> (r: usize)
    ensures
        len == 0 ==> r == 0,
        len > 0 ==> r < len,
{
    if len == 0 {
        return 0;
    }
    index_from_clock(nanos_since_epoch(), len)
}

} // verus!
