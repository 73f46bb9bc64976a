//! The library API's data: sections, items and their media, and the
//! decisions made on them (filters, thumbnails, episode navigation, an
//! artist's discography, the next episode to watch).
use vstd::prelude::*;
use crate::deep_links::{trim_trailing_slashes, trim_trailing_slashes_exec};
use crate::text::{
    decimal, decimal_pad2, decimal_pad2_string, decimal_string, opt_view, owned,
    str_eq,
};
use crate::web::pairs_view;
use crate::sort::{lemma_stable_sort_unique, sort_by_keys, stable_sorted, SortKey, SortKeyView};
use crate::text::{contains_str, lowercase, spec_contains, to_lowercase, views};

verus! {

broadcast use vstd::string::group_string_axioms;

/// Why a library request failed.
#[derive(Debug)]
pub enum LibraryError {
    Http(String),
    Parse(String),
}

/// The envelope of every library response.
#[derive(Debug, Clone)]
pub struct MediaContainer<T> {
    pub media_container: MediaContainerInner<T>,
}

/// An empty list, the value of an absent list field.
pub fn default_vec<T>() -> (v: Vec<T>)
    ensures
        v@.len() == 0,
{
    Vec::new()
}

/// The content of a library response.
#[derive(Debug, Clone)]
pub struct MediaContainerInner<T> {
    pub size: Option<u32>,
    pub total_size: Option<u32>,
    pub metadata: Vec<T>,
    pub directory: Vec<T>,
}

/// A library section (movies, shows, music, ...).
#[derive(Debug, Clone)]
pub struct LibrarySection {
    pub key: String,
    pub title: String,
    pub section_type: String,
    pub agent: Option<String>,
    pub scanner: Option<String>,
    pub thumb: Option<String>,
    pub art: Option<String>,
    pub updated_at: Option<u64>,
}

/// One value a section can be filtered by.
#[derive(Debug, Clone, PartialEq, Eq)]
pub struct FilterOption {
    pub key: String,
    pub title: String,
}

/// The filter and sort applied to a section's items.
#[derive(Debug, Clone, PartialEq, Eq)]
pub struct LibraryFilter {
    pub genre: Option<String>,
    pub year: Option<String>,
    pub content_rating: Option<String>,
    pub resolution: Option<String>,
    pub unwatched_only: bool,
    pub audio_language: Option<String>,
    pub sort: Option<String>,
}

impl Default for LibraryFilter {
    fn default() -> (f: Self)
        ensures
            f.genre is None,
            f.year is None,
            f.content_rating is None,
            f.resolution is None,
            !f.unwatched_only,
            f.audio_language is None,
            f.sort is None,
    {
        LibraryFilter {
            genre: None,
            year: None,
            content_rating: None,
            resolution: None,
            unwatched_only: false,
            audio_language: None,
            sort: None,
        }
    }
}

/// An external id of an item (IMDB, TMDB, TVDB).
#[derive(Debug, Clone)]
pub struct GuidEntry {
    pub id: String,
}

/// A marked span of an item (intro, credits), in milliseconds.
#[derive(Debug, Clone)]
pub struct Marker {
    pub id: Option<u64>,
    pub marker_type: Option<String>,
    pub start_time_offset: Option<u64>,
    pub end_time_offset: Option<u64>,
}

/// An item of the library: a movie, show, season, episode, artist, album
/// or track. The three ratings are single-precision floats kept by their
/// IEEE-754 bit pattern.
#[derive(Debug, Clone)]
pub struct MetadataItem {
    pub rating_key: String,
    pub key: String,
    pub guid: Option<String>,
    pub external_guids: Vec<GuidEntry>,
    pub title: String,
    pub media_type: Option<String>,
    pub summary: Option<String>,
    pub year: Option<u32>,
    pub originally_available_at: Option<String>,
    pub thumb: Option<String>,
    pub art: Option<String>,
    pub parent_thumb: Option<String>,
    pub grandparent_thumb: Option<String>,
    pub duration: Option<u64>,
    pub added_at: Option<u64>,
    pub updated_at: Option<u64>,
    pub view_count: Option<u32>,
    pub rating_bits: Option<u32>,
    pub audience_rating_bits: Option<u32>,
    pub user_rating_bits: Option<u32>,
    pub album_type: Option<String>,
    pub parent_year: Option<u32>,
    pub last_viewed_at: Option<u64>,
    pub view_offset: Option<u64>,
    pub parent_rating_key: Option<String>,
    pub grandparent_rating_key: Option<String>,
    pub parent_title: Option<String>,
    pub grandparent_title: Option<String>,
    pub parent_index: Option<u32>,
    pub index: Option<u32>,
    pub leaf_count: Option<u32>,
    pub viewed_leaf_count: Option<u32>,
    pub media: Option<Vec<MediaInfo>>,
    pub markers: Vec<Marker>,
}

/// A version of an item's media.
#[derive(Debug, Clone)]
pub struct MediaInfo {
    pub id: Option<u64>,
    pub duration: Option<u64>,
    pub bitrate: Option<u32>,
    pub width: Option<u32>,
    pub height: Option<u32>,
    pub video_codec: Option<String>,
    pub audio_codec: Option<String>,
    pub audio_channels: Option<u32>,
    pub container: Option<String>,
    pub video_resolution: Option<String>,
    pub parts: Option<Vec<MediaPart>>,
}

/// A file of a media version.
#[derive(Debug, Clone)]
pub struct MediaPart {
    pub id: Option<u64>,
    pub key: Option<String>,
    pub duration: Option<u64>,
    pub file: Option<String>,
    pub size: Option<u64>,
    pub container: Option<String>,
    pub streams: Option<Vec<MediaStream>>,
}

/// A video, audio or subtitle stream of a file.
#[derive(Debug, Clone)]
pub struct MediaStream {
    pub id: Option<u64>,
    pub stream_type: Option<u32>,
    pub codec: Option<String>,
    pub language: Option<String>,
    pub language_code: Option<String>,
    pub display_title: Option<String>,
    pub channels: Option<u32>,
    pub selected: Option<bool>,
    pub forced: Option<bool>,
    pub index: Option<u32>,
}

// ---------------------------------------------------------------------------
// Copies
// ---------------------------------------------------------------------------

/// A file as values: its streams as a sequence.
pub struct MediaPartView {
    pub id: Option<u64>,
    pub key: Option<String>,
    pub duration: Option<u64>,
    pub file: Option<String>,
    pub size: Option<u64>,
    pub container: Option<String>,
    pub streams: Option<Seq<MediaStream>>,
}

impl View for MediaPart {
    type V = MediaPartView;

    open spec fn view(&self) -> MediaPartView {
        MediaPartView {
            id: self.id,
            key: self.key,
            duration: self.duration,
            file: self.file,
            size: self.size,
            container: self.container,
            streams: match self.streams {
                Some(v) => Some(v@),
                None => None,
            },
        }
    }
}

/// The views of a list of files.
pub open spec fn part_views(v: Seq<MediaPart>) -> Seq<MediaPartView> {
    v.map_values(|p: MediaPart| p@)
}

/// A media version as values.
pub struct MediaInfoView {
    pub id: Option<u64>,
    pub duration: Option<u64>,
    pub bitrate: Option<u32>,
    pub width: Option<u32>,
    pub height: Option<u32>,
    pub video_codec: Option<String>,
    pub audio_codec: Option<String>,
    pub audio_channels: Option<u32>,
    pub container: Option<String>,
    pub video_resolution: Option<String>,
    pub parts: Option<Seq<MediaPartView>>,
}

impl View for MediaInfo {
    type V = MediaInfoView;

    open spec fn view(&self) -> MediaInfoView {
        MediaInfoView {
            id: self.id,
            duration: self.duration,
            bitrate: self.bitrate,
            width: self.width,
            height: self.height,
            video_codec: self.video_codec,
            audio_codec: self.audio_codec,
            audio_channels: self.audio_channels,
            container: self.container,
            video_resolution: self.video_resolution,
            parts: match self.parts {
                Some(v) => Some(part_views(v@)),
                None => None,
            },
        }
    }
}

/// The views of a list of media versions.
pub open spec fn info_views(v: Seq<MediaInfo>) -> Seq<MediaInfoView> {
    v.map_values(|m: MediaInfo| m@)
}

/// An item as values: every list as a sequence.
pub struct MetadataItemView {
    pub rating_key: String,
    pub key: String,
    pub guid: Option<String>,
    pub external_guids: Seq<GuidEntry>,
    pub title: String,
    pub media_type: Option<String>,
    pub summary: Option<String>,
    pub year: Option<u32>,
    pub originally_available_at: Option<String>,
    pub thumb: Option<String>,
    pub art: Option<String>,
    pub parent_thumb: Option<String>,
    pub grandparent_thumb: Option<String>,
    pub duration: Option<u64>,
    pub added_at: Option<u64>,
    pub updated_at: Option<u64>,
    pub view_count: Option<u32>,
    pub rating_bits: Option<u32>,
    pub audience_rating_bits: Option<u32>,
    pub user_rating_bits: Option<u32>,
    pub album_type: Option<String>,
    pub parent_year: Option<u32>,
    pub last_viewed_at: Option<u64>,
    pub view_offset: Option<u64>,
    pub parent_rating_key: Option<String>,
    pub grandparent_rating_key: Option<String>,
    pub parent_title: Option<String>,
    pub grandparent_title: Option<String>,
    pub parent_index: Option<u32>,
    pub index: Option<u32>,
    pub leaf_count: Option<u32>,
    pub viewed_leaf_count: Option<u32>,
    pub media: Option<Seq<MediaInfoView>>,
    pub markers: Seq<Marker>,
}

impl View for MetadataItem {
    type V = MetadataItemView;

    open spec fn view(&self) -> MetadataItemView {
        MetadataItemView {
            rating_key: self.rating_key,
            key: self.key,
            guid: self.guid,
            external_guids: self.external_guids@,
            title: self.title,
            media_type: self.media_type,
            summary: self.summary,
            year: self.year,
            originally_available_at: self.originally_available_at,
            thumb: self.thumb,
            art: self.art,
            parent_thumb: self.parent_thumb,
            grandparent_thumb: self.grandparent_thumb,
            duration: self.duration,
            added_at: self.added_at,
            updated_at: self.updated_at,
            view_count: self.view_count,
            rating_bits: self.rating_bits,
            audience_rating_bits: self.audience_rating_bits,
            user_rating_bits: self.user_rating_bits,
            album_type: self.album_type,
            parent_year: self.parent_year,
            last_viewed_at: self.last_viewed_at,
            view_offset: self.view_offset,
            parent_rating_key: self.parent_rating_key,
            grandparent_rating_key: self.grandparent_rating_key,
            parent_title: self.parent_title,
            grandparent_title: self.grandparent_title,
            parent_index: self.parent_index,
            index: self.index,
            leaf_count: self.leaf_count,
            viewed_leaf_count: self.viewed_leaf_count,
            media: match self.media {
                Some(v) => Some(info_views(v@)),
                None => None,
            },
            markers: self.markers@,
        }
    }
}

fn copy_opt_string(o: &Option<String>) -> (r: Option<String>)
    ensures
        r == *o,
{
    match o {
        Some(s) => Some(s.clone()),
        None => None,
    }
}

impl MediaStream {
    /// A field-by-field copy.
    pub fn duplicate(&self) -> (r: Self)
        ensures
            r == *self,
    {
        MediaStream {
            id: self.id,
            stream_type: self.stream_type,
            codec: copy_opt_string(&self.codec),
            language: copy_opt_string(&self.language),
            language_code: copy_opt_string(&self.language_code),
            display_title: copy_opt_string(&self.display_title),
            channels: self.channels,
            selected: self.selected,
            forced: self.forced,
            index: self.index,
        }
    }
}

impl GuidEntry {
    /// A copy.
    pub fn duplicate(&self) -> (r: Self)
        ensures
            r == *self,
    {
        GuidEntry { id: self.id.clone() }
    }
}

impl Marker {
    /// A field-by-field copy.
    pub fn duplicate(&self) -> (r: Self)
        ensures
            r == *self,
    {
        Marker {
            id: self.id,
            marker_type: copy_opt_string(&self.marker_type),
            start_time_offset: self.start_time_offset,
            end_time_offset: self.end_time_offset,
        }
    }
}

fn copy_streams(v: &Vec<MediaStream>) -> (r: Vec<MediaStream>)
    ensures
        r@ == v@,
{
    let mut r: Vec<MediaStream> = Vec::new();
    let mut i: usize = 0;
    while i < v.len()
        invariant
            i <= v.len(),
            r@ == v@.take(i as int),
        decreases v.len() - i,
    {
        r.push(v[i].duplicate());
        assert(r@ == v@.take(i + 1));
        i += 1;
    }
    assert(v@.take(v.len() as int) == v@);
    r
}

fn copy_guids(v: &Vec<GuidEntry>) -> (r: Vec<GuidEntry>)
    ensures
        r@ == v@,
{
    let mut r: Vec<GuidEntry> = Vec::new();
    let mut i: usize = 0;
    while i < v.len()
        invariant
            i <= v.len(),
            r@ == v@.take(i as int),
        decreases v.len() - i,
    {
        r.push(v[i].duplicate());
        assert(r@ == v@.take(i + 1));
        i += 1;
    }
    assert(v@.take(v.len() as int) == v@);
    r
}

fn copy_markers(v: &Vec<Marker>) -> (r: Vec<Marker>)
    ensures
        r@ == v@,
{
    let mut r: Vec<Marker> = Vec::new();
    let mut i: usize = 0;
    while i < v.len()
        invariant
            i <= v.len(),
            r@ == v@.take(i as int),
        decreases v.len() - i,
    {
        r.push(v[i].duplicate());
        assert(r@ == v@.take(i + 1));
        i += 1;
    }
    assert(v@.take(v.len() as int) == v@);
    r
}

impl MediaPart {
    /// A deep copy.
    pub fn duplicate(&self) -> (r: Self)
        ensures
            r@ == self@,
    {
        MediaPart {
            id: self.id,
            key: copy_opt_string(&self.key),
            duration: self.duration,
            file: copy_opt_string(&self.file),
            size: self.size,
            container: copy_opt_string(&self.container),
            streams: match &self.streams {
                Some(v) => Some(copy_streams(v)),
                None => None,
            },
        }
    }
}

fn copy_parts(v: &Vec<MediaPart>) -> (r: Vec<MediaPart>)
    ensures
        part_views(r@) == part_views(v@),
{
    let mut r: Vec<MediaPart> = Vec::new();
    let mut i: usize = 0;
    while i < v.len()
        invariant
            i <= v.len(),
            part_views(r@) == part_views(v@).take(i as int),
        decreases v.len() - i,
    {
        let ghost before = r@;
        r.push(v[i].duplicate());
        assert(part_views(r@) == part_views(before).push(v@[i as int]@));
        assert(part_views(v@).take(i + 1) == part_views(v@).take(i as int).push(v@[i as int]@));
        i += 1;
    }
    assert(part_views(v@).take(v.len() as int) == part_views(v@));
    r
}

impl MediaInfo {
    /// A deep copy.
    pub fn duplicate(&self) -> (r: Self)
        ensures
            r@ == self@,
    {
        MediaInfo {
            id: self.id,
            duration: self.duration,
            bitrate: self.bitrate,
            width: self.width,
            height: self.height,
            video_codec: copy_opt_string(&self.video_codec),
            audio_codec: copy_opt_string(&self.audio_codec),
            audio_channels: self.audio_channels,
            container: copy_opt_string(&self.container),
            video_resolution: copy_opt_string(&self.video_resolution),
            parts: match &self.parts {
                Some(v) => Some(copy_parts(v)),
                None => None,
            },
        }
    }
}

fn copy_infos(v: &Vec<MediaInfo>) -> (r: Vec<MediaInfo>)
    ensures
        info_views(r@) == info_views(v@),
{
    let mut r: Vec<MediaInfo> = Vec::new();
    let mut i: usize = 0;
    while i < v.len()
        invariant
            i <= v.len(),
            info_views(r@) == info_views(v@).take(i as int),
        decreases v.len() - i,
    {
        let ghost before = r@;
        r.push(v[i].duplicate());
        assert(info_views(r@) == info_views(before).push(v@[i as int]@));
        assert(info_views(v@).take(i + 1) == info_views(v@).take(i as int).push(v@[i as int]@));
        i += 1;
    }
    assert(info_views(v@).take(v.len() as int) == info_views(v@));
    r
}

impl MetadataItem {
    /// A deep copy.
    pub fn duplicate(&self) -> (r: Self)
        ensures
            r@ == self@,
    {
        MetadataItem {
            rating_key: self.rating_key.clone(),
            key: self.key.clone(),
            guid: copy_opt_string(&self.guid),
            external_guids: copy_guids(&self.external_guids),
            title: self.title.clone(),
            media_type: copy_opt_string(&self.media_type),
            summary: copy_opt_string(&self.summary),
            year: self.year,
            originally_available_at: copy_opt_string(&self.originally_available_at),
            thumb: copy_opt_string(&self.thumb),
            art: copy_opt_string(&self.art),
            parent_thumb: copy_opt_string(&self.parent_thumb),
            grandparent_thumb: copy_opt_string(&self.grandparent_thumb),
            duration: self.duration,
            added_at: self.added_at,
            updated_at: self.updated_at,
            view_count: self.view_count,
            rating_bits: self.rating_bits,
            audience_rating_bits: self.audience_rating_bits,
            user_rating_bits: self.user_rating_bits,
            album_type: copy_opt_string(&self.album_type),
            parent_year: self.parent_year,
            last_viewed_at: self.last_viewed_at,
            view_offset: self.view_offset,
            parent_rating_key: copy_opt_string(&self.parent_rating_key),
            grandparent_rating_key: copy_opt_string(&self.grandparent_rating_key),
            parent_title: copy_opt_string(&self.parent_title),
            grandparent_title: copy_opt_string(&self.grandparent_title),
            parent_index: self.parent_index,
            index: self.index,
            leaf_count: self.leaf_count,
            viewed_leaf_count: self.viewed_leaf_count,
            media: match &self.media {
                Some(v) => Some(copy_infos(v)),
                None => None,
            },
            markers: copy_markers(&self.markers),
        }
    }
}

// ---------------------------------------------------------------------------
// URLs and queries
// ---------------------------------------------------------------------------

/// A URL on the server: the base URL without trailing slashes, then `path`.
pub open spec fn spec_api_url(base_url: Seq<char>, path: Seq<char>) -> Seq<char> {
    trim_trailing_slashes(base_url) + path
}

/// A URL on the server: the base URL without trailing slashes, then `path`.
pub fn api_url(base_url: &str, path: &str) -> (r: String)
    ensures
        r@ == spec_api_url(base_url@, path@),
{
    let mut r = trim_trailing_slashes_exec(base_url);
    r.append(path);
    r
}

/// The thumbnail URL of an image path, authorized by `token`.
pub open spec fn spec_thumb_url(base_url: Seq<char>, token: Seq<char>, thumb_path: Seq<char>) -> Seq<char> {
    trim_trailing_slashes(base_url) + thumb_path + "?X-Plex-Token="@ + token
}

/// The thumbnail URL of an image path, authorized by `token`.
pub fn thumb_url(base_url: &str, token: &str, thumb_path: &str) -> (r: String)
    ensures
        r@ == spec_thumb_url(base_url@, token@, thumb_path@),
{
    let mut r = trim_trailing_slashes_exec(base_url);
    r.append(thumb_path);
    r.append("?X-Plex-Token=");
    r.append(token);
    r
}

/// One query pair when the value is present.
pub open spec fn opt_pair(name: Seq<char>, value: Option<String>) -> Seq<(Seq<char>, Seq<char>)> {
    match value {
        Some(v) => seq![(name, v@)],
        None => seq![],
    }
}

/// The query parameters of a filter, in a fixed order: genre, year,
/// contentRating, resolution, unwatched, audioLanguage, sort.
pub open spec fn spec_filter_query(f: LibraryFilter) -> Seq<(Seq<char>, Seq<char>)> {
    opt_pair("genre"@, f.genre) + opt_pair("year"@, f.year) + opt_pair("contentRating"@, f.content_rating)
        + opt_pair("resolution"@, f.resolution) + (if f.unwatched_only {
        seq![("unwatched"@, "1"@)]
    } else {
        seq![]
    }) + opt_pair("audioLanguage"@, f.audio_language) + opt_pair("sort"@, f.sort)
}

fn push_opt_pair(query: &mut Vec<(String, String)>, name: &str, value: &Option<String>)
    ensures
        pairs_view(final(query)@) == pairs_view(old(query)@) + opt_pair(name@, *value),
{
    match value {
        Some(v) => {
            let ghost before = query@;
            query.push((owned(name), v.clone()));
            assert(pairs_view(query@) == pairs_view(before) + opt_pair(name@, *value));
        },
        None => {
            assert(pairs_view(query@) == pairs_view(query@) + opt_pair(name@, *value));
        },
    }
}

/// The query parameters of a filter.
pub fn build_library_filter_query(filter: &LibraryFilter) -> (q: Vec<(String, String)>)
    ensures
        pairs_view(q@) == spec_filter_query(*filter),
{
    let mut query: Vec<(String, String)> = Vec::new();
    assert(pairs_view(query@) == Seq::<(Seq<char>, Seq<char>)>::empty());
    push_opt_pair(&mut query, "genre", &filter.genre);
    push_opt_pair(&mut query, "year", &filter.year);
    push_opt_pair(&mut query, "contentRating", &filter.content_rating);
    push_opt_pair(&mut query, "resolution", &filter.resolution);
    if filter.unwatched_only {
        let ghost before = query@;
        query.push((owned("unwatched"), owned("1")));
        assert(pairs_view(query@) == pairs_view(before) + seq![("unwatched"@, "1"@)]);
    } else {
        assert(pairs_view(query@) == pairs_view(query@) + Seq::<(Seq<char>, Seq<char>)>::empty());
    }
    push_opt_pair(&mut query, "audioLanguage", &filter.audio_language);
    push_opt_pair(&mut query, "sort", &filter.sort);
    query
}

// ---------------------------------------------------------------------------
// Items
// ---------------------------------------------------------------------------

/// The first present one of the item's thumb, parent thumb and grandparent thumb.
pub open spec fn spec_best_thumb(item: MetadataItem) -> Option<Seq<char>> {
    match item.thumb {
        Some(t) => Some(t@),
        None => match item.parent_thumb {
            Some(t) => Some(t@),
            None => opt_view(item.grandparent_thumb),
        },
    }
}

/// A subtitle for display: the show and `SxxEyy` for an episode, the
/// parent's title for a season or track, else the year.
pub open spec fn spec_display_subtitle(item: MetadataItem) -> Option<Seq<char>> {
    match item.grandparent_title {
        Some(g) => Some(
            g@ + match (item.parent_index, item.index) {
                (Some(si), Some(ei)) => " S"@ + decimal_pad2(si as nat) + "E"@ + decimal_pad2(ei as nat),
                _ => Seq::<char>::empty(),
            },
        ),
        None => match item.parent_title {
            Some(p) => Some(p@),
            None => match item.year {
                Some(y) => Some(decimal(y as nat)),
                None => None,
            },
        },
    }
}

impl MetadataItem {
    /// The best available thumbnail path: thumb, else the parent's, else the grandparent's.
    pub fn best_thumb(&self) -> (r: Option<&str>)
        ensures
            match r {
                Some(s) => spec_best_thumb(*self) == Some(s@),
                None => spec_best_thumb(*self) is None,
            },
    {
        match &self.thumb {
            Some(t) => Some(t.as_str()),
            None => match &self.parent_thumb {
                Some(t) => Some(t.as_str()),
                None => match &self.grandparent_thumb {
                    Some(t) => Some(t.as_str()),
                    None => None,
                },
            },
        }
    }

    /// The thumbnail URL of the best available thumbnail path.
    pub fn best_thumb_url(&self, base_url: &str, token: &str) -> (r: Option<String>)
        ensures
            opt_view(r) == match spec_best_thumb(*self) {
                Some(t) => Some(spec_thumb_url(base_url@, token@, t)),
                None => None,
            },
    {
        match self.best_thumb() {
            Some(t) => Some(thumb_url(base_url, token, t)),
            None => None,
        }
    }

    /// A subtitle for display.
    pub fn display_subtitle(&self) -> (r: Option<String>)
        ensures
            opt_view(r) == spec_display_subtitle(*self),
    {
        match &self.grandparent_title {
            Some(g) => {
                let mut sub = g.clone();
                match (self.parent_index, self.index) {
                    (Some(si), Some(ei)) => {
                        sub.append(" S");
                        let s = decimal_pad2_string(si as u64);
                        sub.append(s.as_str());
                        sub.append("E");
                        let e = decimal_pad2_string(ei as u64);
                        sub.append(e.as_str());
                    },
                    _ => {},
                }
                Some(sub)
            },
            None => match &self.parent_title {
                Some(p) => Some(p.clone()),
                None => match self.year {
                    Some(y) => Some(decimal_string(y as u64)),
                    None => None,
                },
            },
        }
    }
}

/// The items before and after one item in its list.
pub struct AdjacentEpisodes {
    pub previous: Option<MetadataItem>,
    pub current: MetadataItem,
    pub next: Option<MetadataItem>,
}

/// The position of the first item at or after `k` whose rating key is `key`.
pub open spec fn position_from(items: Seq<MetadataItem>, key: Seq<char>, k: int) -> Option<int>
    decreases items.len() - k,
{
    if k < 0 || k >= items.len() {
        None
    } else if items[k].rating_key@ == key {
        Some(k)
    } else {
        position_from(items, key, k + 1)
    }
}

/// An optional item, by its view.
pub open spec fn opt_item_view(o: Option<MetadataItem>) -> Option<MetadataItemView> {
    match o {
        Some(i) => Some(i@),
        None => None,
    }
}

proof fn lemma_position_bounds(items: Seq<MetadataItem>, key: Seq<char>, k: int)
    ensures
        position_from(items, key, k) matches Some(i) ==> k <= i < items.len() && items[i].rating_key@ == key,
    decreases items.len() - k,
{
    if k < 0 || k >= items.len() {
    } else if items[k].rating_key@ == key {
    } else {
        lemma_position_bounds(items, key, k + 1);
    }
}

/// The first item with rating key `rating_key`, with the items just before
/// and after it; `None` when no item has that key.
pub fn find_adjacent(siblings: &[MetadataItem], rating_key: &str) -> (r: Option<AdjacentEpisodes>)
    ensures
        match position_from(siblings@, rating_key@, 0) {
            None => r is None,
            Some(p) => r matches Some(a) && a.current@ == siblings@[p]@
                && opt_item_view(a.previous) == (if p > 0 { Some(siblings@[p - 1]@) } else { None })
                && opt_item_view(a.next) == (if p + 1 < siblings@.len() { Some(siblings@[p + 1]@) } else { None }),
        },
{
    let mut i: usize = 0;
    while i < siblings.len()
        invariant
            i <= siblings.len(),
            position_from(siblings@, rating_key@, 0) == position_from(siblings@, rating_key@, i as int),
        decreases siblings.len() - i,
    {
        if str_eq(siblings[i].rating_key.as_str(), rating_key) {
            let previous = if i > 0 { Some(siblings[i - 1].duplicate()) } else { None };
            let next = if i + 1 < siblings.len() { Some(siblings[i + 1].duplicate()) } else { None };
            return Some(AdjacentEpisodes { previous, current: siblings[i].duplicate(), next });
        }
        i += 1;
    }
    None
}

/// The message for an item missing from its parent's children.
pub open spec fn not_in_siblings_message(rating_key: Seq<char>) -> Seq<char> {
    "Item "@ + rating_key + " not found in siblings"@
}

/// Where an item's neighbours come from.
pub enum SiblingLookup {
    /// The children of the parent with this rating key.
    Siblings(String),
    /// Nowhere: an item without a parent (such as a movie) stands alone.
    Alone(AdjacentEpisodes),
}

/// Where an item's neighbours come from: its parent's children when it has
/// a parent rating key, else the item alone, with nothing before or after it.
pub fn sibling_lookup(item: MetadataItem) -> (r: SiblingLookup)
    ensures
        match item.parent_rating_key {
            Some(p) => r matches SiblingLookup::Siblings(k) && k@ == p@,
            None => r matches SiblingLookup::Alone(a) && a.previous is None && a.current == item && a.next is None,
        },
{
    match &item.parent_rating_key {
        Some(p) => SiblingLookup::Siblings(p.clone()),
        None => SiblingLookup::Alone(AdjacentEpisodes { previous: None, current: item, next: None }),
    }
}

/// The neighbours of an item among its siblings, or an error when it is not
/// among them.
pub fn adjacent_in_siblings(siblings: &[MetadataItem], rating_key: &str) -> (r: Result<AdjacentEpisodes, LibraryError>)
    ensures
        match position_from(siblings@, rating_key@, 0) {
            None => r matches Err(LibraryError::Parse(m)) && m@ == not_in_siblings_message(rating_key@),
            Some(p) => r matches Ok(a) && a.current@ == siblings@[p]@
                && opt_item_view(a.previous) == (if p > 0 { Some(siblings@[p - 1]@) } else { None })
                && opt_item_view(a.next) == (if p + 1 < siblings@.len() { Some(siblings@[p + 1]@) } else { None }),
        },
{
    match find_adjacent(siblings, rating_key) {
        Some(a) => Ok(a),
        None => {
            let mut m = owned("Item ");
            m.append(rating_key);
            m.append(" not found in siblings");
            Err(LibraryError::Parse(m))
        },
    }
}

/// The children of an item from one response: the leaf entries, then the
/// container entries, without those that have no rating key.
pub open spec fn spec_children(metadata: Seq<MetadataItem>, directory: Seq<MetadataItem>) -> Seq<MetadataItem> {
    keyed(metadata + directory)
}

/// The items that have a rating key, in order.
pub open spec fn keyed(s: Seq<MetadataItem>) -> Seq<MetadataItem> {
    s.filter(|i: MetadataItem| i.rating_key@.len() > 0)
}

/// The children of an item from one response.
pub fn merge_children(metadata: Vec<MetadataItem>, directory: Vec<MetadataItem>) -> (r: Vec<MetadataItem>)
    ensures
        r@ == spec_children(metadata@, directory@),
{
    let ghost all = metadata@ + directory@;
    let mut out: Vec<MetadataItem> = Vec::new();
    let mut m = metadata;
    let mut d = directory;
    m.append(&mut d);
    assert(m@ == all);
    let n = m.len();
    let mut rest = m;
    let mut taken: Vec<MetadataItem> = Vec::new();
    // Items leave `rest` from the back; `taken` holds them in reverse order.
    while rest.len() > 0
        invariant
            rest@ + taken@.reverse() == all,
        decreases rest.len(),
    {
        let ghost before_rest = rest@;
        let ghost before_taken = taken@;
        let item = rest.pop().unwrap();
        taken.push(item);
        assert(rest@ + taken@.reverse() == all) by {
            assert(taken@.reverse() == seq![item] + before_taken.reverse());
            assert(before_rest == rest@.push(item));
        }
    }
    assert(taken@.reverse() == all);
    let ghost rev = taken@;
    while taken.len() > 0
        invariant
            rev.reverse() == all,
            taken@ == rev.take(taken@.len() as int),
            out@ == keyed(all.take(all.len() - taken@.len())),
            taken@.len() <= rev.len(),
            rev.len() == all.len(),
        decreases taken.len(),
    {
        let ghost k = all.len() - taken@.len();
        let item = taken.pop().unwrap();
        proof {
            assert(item == rev[taken@.len() as int]);
            assert(all[k] == rev.reverse()[k]);
            assert(all.take(k + 1).drop_last() == all.take(k));
            assert(all.take(k + 1).last() == item);
            reveal(Seq::filter);
            assert(keyed(all.take(k + 1)) == (if item.rating_key@.len() > 0 {
                keyed(all.take(k)).push(item)
            } else {
                keyed(all.take(k))
            }));
            assert(taken@ == rev.take(taken@.len() as int));
        }
        if item.rating_key.as_str().unicode_len() > 0 {
            out.push(item);
        }
    }
    assert(all.take(all.len() as int) == all);
    let _ = n;
    out
}

// ---------------------------------------------------------------------------
// Orders
// ---------------------------------------------------------------------------

/// The elements of `v` in order, as the reverse of the returned vector, so
/// that popping yields them front to back.
pub(crate) fn reversed<T>(v: Vec<T>) -> (r: Vec<T>)
    ensures
        r@ == v@.reverse(),
{
    let ghost all = v@;
    let mut rest = v;
    let mut taken: Vec<T> = Vec::new();
    while rest.len() > 0
        invariant
            rest@ + taken@.reverse() == all,
        decreases rest.len(),
    {
        let ghost before_rest = rest@;
        let ghost before_taken = taken@;
        let item = rest.pop().unwrap();
        taken.push(item);
        assert(rest@ + taken@.reverse() == all) by {
            assert(taken@.reverse() == seq![item] + before_taken.reverse());
            assert(before_rest == rest@.push(item));
        }
    }
    assert(taken@.reverse() == all);
    assert(taken@ == all.reverse()) by {
        assert(taken@.reverse().reverse() == taken@);
    }
    taken
}

/// A single-precision float's bit pattern is a NaN.
pub open spec fn f32_is_nan(bits: u32) -> bool {
    bits % 0x8000_0000 > 0x7f80_0000
}

/// A number that orders non-NaN floats by their value: the zeros in the
/// middle, positive values above by magnitude, negative values below.
pub open spec fn f32_order_key(bits: u32) -> nat {
    let mag = bits % 0x8000_0000;
    if mag == 0 {
        0x8000_0000
    } else if bits < 0x8000_0000 {
        (0x8000_0000 + mag) as nat
    } else {
        (0x8000_0000 - mag) as nat
    }
}

/// The rating a track is ranked by: the user's, else the audience's, else
/// the critics', else zero.
pub open spec fn score_bits(t: MetadataItem) -> u32 {
    match t.user_rating_bits {
        Some(b) => b,
        None => match t.audience_rating_bits {
            Some(b) => b,
            None => match t.rating_bits {
                Some(b) => b,
                None => 0,
            },
        },
    }
}

/// How popular a track is: by its rating, then by its play count.
pub open spec fn popularity(t: MetadataItem) -> nat {
    f32_order_key(score_bits(t)) * 0x1_0000_0000 + match t.view_count {
        Some(c) => c as nat,
        None => 0,
    }
}

/// The sort key that puts more popular tracks first.
pub open spec fn popular_key(t: MetadataItem) -> SortKeyView {
    SortKeyView { major: (0xFFFF_FFFF_FFFF_FFFF - popularity(t)) as nat, minor: Seq::empty() }
}

/// The sort key that puts more popular tracks first.
pub open spec fn popular_order() -> spec_fn(MetadataItem) -> SortKeyView {
    |t: MetadataItem| popular_key(t)
}

/// No track is ranked by a NaN rating.
pub open spec fn rankable(tracks: Seq<MetadataItem>) -> bool {
    forall|i: int| 0 <= i < tracks.len() ==> !f32_is_nan(#[trigger] score_bits(tracks[i]))
}

/// Whether every track can be ranked (none is ranked by a NaN rating).
pub fn rankable_tracks(tracks: &Vec<MetadataItem>) -> (b: bool)
    ensures
        b == rankable(tracks@),
{
    let mut i: usize = 0;
    while i < tracks.len()
        invariant
            i <= tracks.len(),
            forall|j: int| 0 <= j < i ==> !f32_is_nan(#[trigger] score_bits(tracks@[j])),
        decreases tracks.len() - i,
    {
        let bits = score_bits_exec(&tracks[i]);
        if bits % 0x8000_0000 > 0x7f80_0000 {
            assert(f32_is_nan(score_bits(tracks@[i as int])));
            return false;
        }
        i += 1;
    }
    true
}

fn score_bits_exec(t: &MetadataItem) -> (b: u32)
    ensures
        b == score_bits(*t),
{
    match t.user_rating_bits {
        Some(b) => b,
        None => match t.audience_rating_bits {
            Some(b) => b,
            None => match t.rating_bits {
                Some(b) => b,
                None => 0,
            },
        },
    }
}

fn popular_key_exec(t: &MetadataItem) -> (k: SortKey)
    requires
        !f32_is_nan(score_bits(*t)),
    ensures
        k@ == popular_key(*t),
{
    let bits = score_bits_exec(t);
    let mag = bits % 0x8000_0000;
    let order: u64 = if mag == 0 {
        0x8000_0000
    } else if bits < 0x8000_0000 {
        0x8000_0000 + mag as u64
    } else {
        0x8000_0000 - mag as u64
    };
    assert(order == f32_order_key(bits));
    let count: u64 = match t.view_count {
        Some(c) => c as u64,
        None => 0,
    };
    assert(order < 0x1_0000_0000);
    let pop: u64 = order * 0x1_0000_0000 + count;
    let k = SortKey { major: 0xFFFF_FFFF_FFFF_FFFF - pop, minor: Vec::new() };
    assert(k@.minor == Seq::<char>::empty());
    k
}

/// Most popular tracks first: by rating (the user's, else the audience's,
/// else the critics', else zero), then by play count, both descending;
/// tracks that tie keep their order.
pub fn sort_popular_tracks(tracks: Vec<MetadataItem>) -> (r: Vec<MetadataItem>)
    requires
        rankable(tracks@),
    ensures
        stable_sorted(tracks@, r@, popular_order()),
        r@.len() == tracks@.len(),
{
    let mut keys: Vec<SortKey> = Vec::new();
    let mut i: usize = 0;
    while i < tracks.len()
        invariant
            i <= tracks.len(),
            rankable(tracks@),
            keys@.len() == i,
            forall|j: int| 0 <= j < i ==> #[trigger] keys@[j]@ == popular_order()(tracks@[j]),
        decreases tracks.len() - i,
    {
        assert(!f32_is_nan(score_bits(tracks@[i as int])));
        keys.push(popular_key_exec(&tracks[i]));
        i += 1;
    }
    sort_by_keys(tracks, keys, Ghost(popular_order()))
}

/// An item of type `album`.
pub open spec fn is_album(t: MetadataItem) -> bool {
    t.media_type matches Some(m) && m@ == "album"@
}

/// An album whose type, in lowercase, mentions an EP or a single.
pub open spec fn is_ep_or_single(t: MetadataItem) -> bool {
    let kind = lowercase(
        match t.album_type {
            Some(a) => a@,
            None => Seq::empty(),
        },
    );
    spec_contains(kind, "ep"@) || spec_contains(kind, "single"@)
}

/// A full album.
pub open spec fn is_full_album(t: MetadataItem) -> bool {
    is_album(t) && !is_ep_or_single(t)
}

/// An EP or single.
pub open spec fn is_short_release(t: MetadataItem) -> bool {
    is_album(t) && is_ep_or_single(t)
}

/// Which items are full albums.
pub open spec fn full_album_pred() -> spec_fn(MetadataItem) -> bool {
    |t: MetadataItem| is_full_album(t)
}

/// Which items are EPs or singles.
pub open spec fn short_release_pred() -> spec_fn(MetadataItem) -> bool {
    |t: MetadataItem| is_short_release(t)
}

/// Which items are albums.
pub open spec fn album_pred() -> spec_fn(MetadataItem) -> bool {
    |t: MetadataItem| is_album(t)
}

/// Releases by year (the album's, else its parent's, else 0), then title.
pub open spec fn release_key(t: MetadataItem) -> SortKeyView {
    SortKeyView {
        major: match t.year {
            Some(y) => y as nat,
            None => match t.parent_year {
                Some(y) => y as nat,
                None => 0,
            },
        },
        minor: t.title@,
    }
}

/// Releases by year, then title.
pub open spec fn release_order() -> spec_fn(MetadataItem) -> SortKeyView {
    |t: MetadataItem| release_key(t)
}

fn release_key_exec(t: &MetadataItem) -> (k: SortKey)
    ensures
        k@ == release_key(*t),
{
    let year: u64 = match t.year {
        Some(y) => y as u64,
        None => match t.parent_year {
            Some(y) => y as u64,
            None => 0,
        },
    };
    SortKey { major: year, minor: crate::text::chars_of(t.title.as_str()) }
}

fn is_album_exec(t: &MetadataItem) -> (b: bool)
    ensures
        b == is_album(*t),
{
    match &t.media_type {
        Some(m) => str_eq(m.as_str(), "album"),
        None => false,
    }
}

fn is_ep_or_single_exec(t: &MetadataItem) -> (b: bool)
    ensures
        b == is_ep_or_single(*t),
{
    let kind = match &t.album_type {
        Some(a) => to_lowercase(a.as_str()),
        None => {
            proof {
                reveal_strlit("");
                assert(""@ == Seq::<char>::empty());
            }
            to_lowercase("")
        },
    };
    contains_str(kind.as_str(), "ep") || contains_str(kind.as_str(), "single")
}

/// Sorts releases by year, then title, keeping ties in order.
fn sort_releases(items: Vec<MetadataItem>) -> (r: Vec<MetadataItem>)
    ensures
        stable_sorted(items@, r@, release_order()),
        r@.len() == items@.len(),
{
    let mut keys: Vec<SortKey> = Vec::new();
    let mut i: usize = 0;
    while i < items.len()
        invariant
            i <= items.len(),
            keys@.len() == i,
            forall|j: int| 0 <= j < i ==> #[trigger] keys@[j]@ == release_order()(items@[j]),
        decreases items.len() - i,
    {
        keys.push(release_key_exec(&items[i]));
        i += 1;
    }
    sort_by_keys(items, keys, Ghost(release_order()))
}

/// An artist's releases, split into full albums and EPs or singles (items
/// that are not albums are dropped), each by year, then title.
pub fn split_discography_items(items: Vec<MetadataItem>) -> (r: (Vec<MetadataItem>, Vec<MetadataItem>))
    ensures
        stable_sorted(items@.filter(full_album_pred()), r.0@, release_order()),
        stable_sorted(items@.filter(short_release_pred()), r.1@, release_order()),
{
    let ghost all = items@;
    let mut rest = reversed(items);
    let mut albums: Vec<MetadataItem> = Vec::new();
    let mut eps: Vec<MetadataItem> = Vec::new();
    let ghost full = full_album_pred();
    let ghost short = short_release_pred();
    assert(all.take(0) == Seq::<MetadataItem>::empty());
    proof {
        reveal(Seq::filter);
    }
    while rest.len() > 0
        invariant
            rest@.len() <= all.len(),
            rest@ == all.reverse().take(rest@.len() as int),
            full == full_album_pred(),
            short == short_release_pred(),
            albums@ == all.take(all.len() - rest@.len()).filter(full),
            eps@ == all.take(all.len() - rest@.len()).filter(short),
        decreases rest.len(),
    {
        let ghost k = all.len() - rest@.len();
        let item = rest.pop().unwrap();
        let ghost it = item;
        proof {
            assert(item == all.reverse()[rest@.len() as int]);
            assert(item == all[k]);
        }
        if is_album_exec(&item) {
            if is_ep_or_single_exec(&item) {
                eps.push(item);
            } else {
                albums.push(item);
            }
        }
        proof {
            assert(all.take(k + 1).drop_last() == all.take(k));
            assert(all.take(k + 1).last() == it);
            reveal(Seq::filter);
            assert(all.take(k + 1).filter(full) == if full(it) {
                all.take(k).filter(full).push(it)
            } else {
                all.take(k).filter(full)
            });
            assert(all.take(k + 1).filter(short) == if short(it) {
                all.take(k).filter(short).push(it)
            } else {
                all.take(k).filter(short)
            });
            assert(rest@ == all.reverse().take(rest@.len() as int));
        }
    }
    assert(all.take(all.len() as int) == all);
    (sort_releases(albums), sort_releases(eps))
}

/// Episodes and seasons by their number, unnumbered ones last.
pub open spec fn index_key(t: MetadataItem) -> SortKeyView {
    SortKeyView {
        major: match t.index {
            Some(i) => i as nat,
            None => u32::MAX as nat,
        },
        minor: Seq::empty(),
    }
}

/// Episodes and seasons by their number, unnumbered ones last.
pub open spec fn index_order() -> spec_fn(MetadataItem) -> SortKeyView {
    |t: MetadataItem| index_key(t)
}

/// Sorts items by their number, unnumbered ones last, keeping ties in order.
pub fn sort_by_index(items: Vec<MetadataItem>) -> (r: Vec<MetadataItem>)
    ensures
        stable_sorted(items@, r@, index_order()),
        r@.len() == items@.len(),
{
    let mut keys: Vec<SortKey> = Vec::new();
    let mut i: usize = 0;
    while i < items.len()
        invariant
            i <= items.len(),
            keys@.len() == i,
            forall|j: int| 0 <= j < i ==> #[trigger] keys@[j]@ == index_order()(items@[j]),
        decreases items.len() - i,
    {
        let major: u64 = match items[i].index {
            Some(n) => n as u64,
            None => 0xFFFF_FFFF,
        };
        let k = SortKey { major, minor: Vec::new() };
        assert(k@ == index_key(items@[i as int]));
        keys.push(k);
        i += 1;
    }
    sort_by_keys(items, keys, Ghost(index_order()))
}

/// An item of type `season`.
pub open spec fn is_season(t: MetadataItem) -> bool {
    t.media_type matches Some(m) && m@ == "season"@
}

/// Which items are seasons.
pub open spec fn season_pred() -> spec_fn(MetadataItem) -> bool {
    |t: MetadataItem| is_season(t)
}

/// A show's seasons, in order, from the show's children.
pub fn next_episode_seasons(children: Vec<MetadataItem>) -> (r: Vec<MetadataItem>)
    ensures
        stable_sorted(children@.filter(season_pred()), r@, index_order()),
{
    let ghost all = children@;
    let ghost pred = season_pred();
    let mut rest = reversed(children);
    let mut seasons: Vec<MetadataItem> = Vec::new();
    assert(all.take(0) == Seq::<MetadataItem>::empty());
    proof {
        reveal(Seq::filter);
    }
    while rest.len() > 0
        invariant
            rest@.len() <= all.len(),
            rest@ == all.reverse().take(rest@.len() as int),
            pred == season_pred(),
            seasons@ == all.take(all.len() - rest@.len()).filter(pred),
        decreases rest.len(),
    {
        let ghost k = all.len() - rest@.len();
        let item = rest.pop().unwrap();
        let ghost it = item;
        proof {
            assert(item == all.reverse()[rest@.len() as int]);
            assert(item == all[k]);
        }
        let is_s = match &item.media_type {
            Some(m) => str_eq(m.as_str(), "season"),
            None => false,
        };
        if is_s {
            seasons.push(item);
        }
        proof {
            assert(all.take(k + 1).drop_last() == all.take(k));
            assert(all.take(k + 1).last() == it);
            reveal(Seq::filter);
            assert(all.take(k + 1).filter(pred) == if pred(it) {
                all.take(k).filter(pred).push(it)
            } else {
                all.take(k).filter(pred)
            });
            assert(rest@ == all.reverse().take(rest@.len() as int));
        }
    }
    assert(all.take(all.len() as int) == all);
    sort_by_index(seasons)
}

/// An episode watched part of the way.
pub open spec fn is_in_progress(t: MetadataItem) -> bool {
    match t.view_offset {
        Some(o) => o > 0,
        None => false,
    }
}

/// An episode never watched.
pub open spec fn is_unwatched(t: MetadataItem) -> bool {
    match t.view_count {
        Some(c) => c == 0,
        None => true,
    }
}

/// The first position at or after `k` of an episode in progress.
pub open spec fn first_in_progress(s: Seq<MetadataItem>, k: int) -> Option<int>
    decreases s.len() - k,
{
    if k < 0 || k >= s.len() {
        None
    } else if is_in_progress(s[k]) {
        Some(k)
    } else {
        first_in_progress(s, k + 1)
    }
}

/// The first position at or after `k` of an unwatched episode.
pub open spec fn first_unwatched(s: Seq<MetadataItem>, k: int) -> Option<int>
    decreases s.len() - k,
{
    if k < 0 || k >= s.len() {
        None
    } else if is_unwatched(s[k]) {
        Some(k)
    } else {
        first_unwatched(s, k + 1)
    }
}

/// Which episode of a season to play next: the first one in progress, else
/// the first unwatched one.
pub open spec fn next_episode_position(s: Seq<MetadataItem>) -> Option<int> {
    match first_in_progress(s, 0) {
        Some(i) => Some(i),
        None => first_unwatched(s, 0),
    }
}

proof fn lemma_first_bounds(s: Seq<MetadataItem>, k: int)
    ensures
        first_in_progress(s, k) matches Some(i) ==> k <= i < s.len(),
        first_unwatched(s, k) matches Some(i) ==> k <= i < s.len(),
    decreases s.len() - k,
{
    if 0 <= k < s.len() {
        lemma_first_bounds(s, k + 1);
    }
}

proof fn lemma_first_in_progress_least(s: Seq<MetadataItem>, k: int)
    requires
        0 <= k,
    ensures
        match first_in_progress(s, k) {
            Some(i) => k <= i < s.len() && (s[i].view_offset is Some && s[i].view_offset->0 > 0)
                && forall|j: int| k <= j < i ==> !(s[j].view_offset is Some && s[j].view_offset->0 > 0),
            None => forall|j: int| k <= j < s.len() ==> !(s[j].view_offset is Some && s[j].view_offset->0 > 0),
        },
    decreases s.len() - k,
{
    if k < s.len() {
        lemma_first_in_progress_least(s, k + 1);
    }
}

proof fn lemma_first_unwatched_least(s: Seq<MetadataItem>, k: int)
    requires
        0 <= k,
    ensures
        match first_unwatched(s, k) {
            Some(i) => k <= i < s.len() && (s[i].view_count is None || s[i].view_count == Some(0u32))
                && forall|j: int| k <= j < i ==> !(s[j].view_count is None || s[j].view_count == Some(0u32)),
            None => forall|j: int| k <= j < s.len() ==> !(s[j].view_count is None || s[j].view_count == Some(0u32)),
        },
    decreases s.len() - k,
{
    if k < s.len() {
        lemma_first_unwatched_least(s, k + 1);
    }
}

/// The episode to play next: the first one with a positive view offset
/// (watched part of the way); when there is none, the first one never
/// watched, that is whose view count is absent or zero; when there is none
/// either, no episode.
pub proof fn law_next_episode(s: Seq<MetadataItem>)
    ensures
        if exists|j: int| 0 <= j < s.len() && (s[j].view_offset is Some && s[j].view_offset->0 > 0) {
            next_episode_position(s) matches Some(i) && 0 <= i < s.len()
                && (s[i].view_offset is Some && s[i].view_offset->0 > 0)
                && forall|j: int| 0 <= j < i ==> !(s[j].view_offset is Some && s[j].view_offset->0 > 0)
        } else if exists|j: int| 0 <= j < s.len() && (s[j].view_count is None || s[j].view_count == Some(0u32)) {
            next_episode_position(s) matches Some(i) && 0 <= i < s.len()
                && (s[i].view_count is None || s[i].view_count == Some(0u32))
                && forall|j: int| 0 <= j < i ==> !(s[j].view_count is None || s[j].view_count == Some(0u32))
        } else {
            next_episode_position(s) is None
        },
{
    lemma_first_in_progress_least(s, 0);
    lemma_first_unwatched_least(s, 0);
}

/// The episode to play next among a season's episodes in order: the first
/// one in progress, else the first unwatched one.
pub fn pick_next_episode(episodes: &Vec<MetadataItem>) -> (r: Option<MetadataItem>)
    ensures
        opt_item_view(r) == match next_episode_position(episodes@) {
            Some(i) => Some(episodes@[i]@),
            None => None,
        },
{
    proof {
        lemma_first_bounds(episodes@, 0);
    }
    let mut i: usize = 0;
    while i < episodes.len()
        invariant
            i <= episodes.len(),
            first_in_progress(episodes@, 0) == first_in_progress(episodes@, i as int),
        decreases episodes.len() - i,
    {
        let resumed = match episodes[i].view_offset {
            Some(o) => o > 0,
            None => false,
        };
        if resumed {
            return Some(episodes[i].duplicate());
        }
        i += 1;
    }
    let mut j: usize = 0;
    while j < episodes.len()
        invariant
            j <= episodes.len(),
            first_in_progress(episodes@, 0) is None,
            first_unwatched(episodes@, 0) == first_unwatched(episodes@, j as int),
        decreases episodes.len() - j,
    {
        let unwatched = match episodes[j].view_count {
            Some(c) => c == 0,
            None => true,
        };
        if unwatched {
            return Some(episodes[j].duplicate());
        }
        j += 1;
    }
    None
}

/// The next episode of a season: the first in progress, else the first
/// unwatched, of its episodes by number.
pub fn next_episode_in_season(episodes: Vec<MetadataItem>) -> (r: Option<MetadataItem>)
    ensures
        forall|s: Seq<MetadataItem>| stable_sorted(episodes@, s, index_order()) ==> opt_item_view(r) == match next_episode_position(s) {
            Some(i) => Some(s[i]@),
            None => None,
        },
{
    let sorted = sort_by_index(episodes);
    let r = pick_next_episode(&sorted);
    proof {
        assert forall|s: Seq<MetadataItem>| stable_sorted(episodes@, s, index_order()) implies opt_item_view(r) == match next_episode_position(s) {
            Some(i) => Some(s[i]@),
            None => None,
        } by {
            lemma_stable_sort_unique(episodes@, s, sorted@, index_order());
        }
    }
    r
}

/// An item's rating key.
pub open spec fn rating_key_of() -> spec_fn(MetadataItem) -> Seq<char> {
    |t: MetadataItem| t.rating_key@
}

/// The rating keys of an artist's albums, the children whose tracks make up
/// the discography.
pub fn album_rating_keys(children: &Vec<MetadataItem>) -> (r: Vec<String>)
    ensures
        views(r@) == children@.filter(album_pred()).map_values(rating_key_of()),
{
    let ghost pred = album_pred();
    let ghost key = rating_key_of();
    let mut r: Vec<String> = Vec::new();
    let mut i: usize = 0;
    assert(children@.take(0) == Seq::<MetadataItem>::empty());
    proof {
        reveal(Seq::filter);
    }
    while i < children.len()
        invariant
            i <= children.len(),
            pred == album_pred(),
            key == rating_key_of(),
            views(r@) == children@.take(i as int).filter(pred).map_values(key),
        decreases children.len() - i,
    {
        let ghost before = r@;
        let ghost it = children@[i as int];
        if is_album_exec(&children[i]) {
            r.push(children[i].rating_key.clone());
            assert(views(r@) == views(before).push(it.rating_key@));
        }
        proof {
            assert(children@.take(i + 1).drop_last() == children@.take(i as int));
            assert(children@.take(i + 1).last() == it);
            reveal(Seq::filter);
            assert(children@.take(i + 1).filter(pred) == if pred(it) {
                children@.take(i as int).filter(pred).push(it)
            } else {
                children@.take(i as int).filter(pred)
            });
            if pred(it) {
                let f = children@.take(i as int).filter(pred);
                assert(f.push(it).map_values(key) == f.map_values(key).push(it.rating_key@));
            }
        }
        i += 1;
    }
    assert(children@.take(children.len() as int) == children@);
    r
}

/// An artist's page: the most popular tracks, the full albums, and the EPs
/// and singles.
#[derive(Debug, Clone)]
pub struct ArtistDiscography {
    pub popular_tracks: Vec<MetadataItem>,
    pub albums: Vec<MetadataItem>,
    pub eps_and_singles: Vec<MetadataItem>,
}

/// The most tracks an artist's page lists as popular.
pub const POPULAR_TRACK_LIMIT: usize = 10;

/// An artist's page from the artist's children and the tracks of its
/// albums: the ten most popular tracks, then the releases split and ordered.
pub fn discography_from(artist_children: Vec<MetadataItem>, all_tracks: Vec<MetadataItem>) -> (r: ArtistDiscography)
    requires
        rankable(all_tracks@),
    ensures
        r.popular_tracks@.len() == if all_tracks@.len() < POPULAR_TRACK_LIMIT { all_tracks@.len() } else { POPULAR_TRACK_LIMIT as nat },
        forall|s: Seq<MetadataItem>| stable_sorted(all_tracks@, s, popular_order())
            ==> r.popular_tracks@ == s.take(r.popular_tracks@.len() as int),
        stable_sorted(artist_children@.filter(full_album_pred()), r.albums@, release_order()),
        stable_sorted(artist_children@.filter(short_release_pred()), r.eps_and_singles@, release_order()),
{
    let mut popular = sort_popular_tracks(all_tracks);
    let ghost sorted = popular@;
    popular.truncate(POPULAR_TRACK_LIMIT);
    proof {
        assert forall|s: Seq<MetadataItem>| stable_sorted(all_tracks@, s, popular_order()) implies popular@ == s.take(popular@.len() as int) by {
            lemma_stable_sort_unique(all_tracks@, s, sorted, popular_order());
        }
    }
    let (albums, eps_and_singles) = split_discography_items(artist_children);
    ArtistDiscography { popular_tracks: popular, albums, eps_and_singles }
}

} // verus!
