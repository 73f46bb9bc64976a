//! Playback URLs: direct streams of a file, direct play by part id, and HLS
//! transcodes.
use vstd::prelude::*;
use crate::deep_links::{trim_trailing_slashes, trim_trailing_slashes_exec};
use crate::library::{MediaPart, MetadataItem};
use crate::text::{decimal, decimal_string, opt_view};
use crate::web::{percent_encode, url_encode};

verus! {

broadcast use vstd::string::group_string_axioms;

/// The HLS transcode URL of an item.
pub open spec fn spec_transcode_url(base_url: Seq<char>, token: Seq<char>, path: Seq<char>, session_id: Seq<char>) -> Seq<char> {
    trim_trailing_slashes(base_url) + "/video/:/transcode/universal/start.m3u8?path="@ + percent_encode(path)
        + "&mediaIndex=0&partIndex=0&protocol=hls&session="@ + percent_encode(session_id) + "&X-Plex-Token="@
        + percent_encode(token) + "&X-Plex-Product=Simplex&X-Plex-Client-Identifier=simplex-app"@
}

/// The HLS transcode URL of an item (`path` is its metadata key).
pub fn transcode_url(base_url: &str, token: &str, path: &str, session_id: &str) -> (r: String)
    ensures
        r@ == spec_transcode_url(base_url@, token@, path@, session_id@),
{
    let mut r = trim_trailing_slashes_exec(base_url);
    r.append("/video/:/transcode/universal/start.m3u8?path=");
    let p = url_encode(path);
    r.append(p.as_str());
    r.append("&mediaIndex=0&partIndex=0&protocol=hls&session=");
    let s = url_encode(session_id);
    r.append(s.as_str());
    r.append("&X-Plex-Token=");
    let t = url_encode(token);
    r.append(t.as_str());
    r.append("&X-Plex-Product=Simplex&X-Plex-Client-Identifier=simplex-app");
    r
}

/// The direct stream URL of a file.
pub open spec fn spec_direct_stream_url(base_url: Seq<char>, token: Seq<char>, part_key: Seq<char>) -> Seq<char> {
    trim_trailing_slashes(base_url) + part_key + "?X-Plex-Token="@ + percent_encode(token)
}

/// The direct stream URL of a file (`part_key` is its key).
pub fn direct_stream_url(base_url: &str, token: &str, part_key: &str) -> (r: String)
    ensures
        r@ == spec_direct_stream_url(base_url@, token@, part_key@),
{
    let mut r = trim_trailing_slashes_exec(base_url);
    r.append(part_key);
    r.append("?X-Plex-Token=");
    let t = url_encode(token);
    r.append(t.as_str());
    r
}

/// The direct play URL of a file by its part id.
pub open spec fn spec_direct_play_url(base_url: Seq<char>, token: Seq<char>, part_id: u64) -> Seq<char> {
    trim_trailing_slashes(base_url) + "/library/parts/"@ + decimal(part_id as nat) + "/file?X-Plex-Token="@
        + percent_encode(token)
}

/// The direct play URL of a file by its part id.
pub fn direct_play_url(base_url: &str, token: &str, part_id: u64) -> (r: String)
    ensures
        r@ == spec_direct_play_url(base_url@, token@, part_id),
{
    let mut r = trim_trailing_slashes_exec(base_url);
    r.append("/library/parts/");
    let id = decimal_string(part_id);
    r.append(id.as_str());
    r.append("/file?X-Plex-Token=");
    let t = url_encode(token);
    r.append(t.as_str());
    r
}

/// The first file of the first media version of an item, if there is one.
pub open spec fn first_part(item: MetadataItem) -> Option<MediaPart> {
    match item.media {
        Some(ms) => if ms@.len() > 0 {
            match ms@[0].parts {
                Some(ps) => if ps@.len() > 0 {
                    Some(ps@[0])
                } else {
                    None
                },
                None => None,
            }
        } else {
            None
        },
        None => None,
    }
}

/// How an item is played: a direct stream of its first file when that file
/// has a key, a transcode when it has none, nothing without a file.
pub open spec fn spec_playback_url(item: MetadataItem, base_url: Seq<char>, token: Seq<char>, session_id: Seq<char>) -> Option<Seq<char>> {
    match first_part(item) {
        None => None,
        Some(p) => match p.key {
            Some(k) => Some(spec_direct_stream_url(base_url, token, k@)),
            None => Some(spec_transcode_url(base_url, token, item.key@, session_id)),
        },
    }
}

/// The URL an item is played from.
pub fn playback_url_for_item(item: &MetadataItem, base_url: &str, token: &str, session_id: &str) -> (r: Option<String>)
    ensures
        opt_view(r) == spec_playback_url(*item, base_url@, token@, session_id@),
{
    let media = match &item.media {
        Some(m) => m,
        None => return None,
    };
    if media.len() == 0 {
        return None;
    }
    let parts = match &media[0].parts {
        Some(p) => p,
        None => return None,
    };
    if parts.len() == 0 {
        return None;
    }
    match &parts[0].key {
        Some(k) => Some(direct_stream_url(base_url, token, k.as_str())),
        None => Some(transcode_url(base_url, token, item.key.as_str(), session_id)),
    }
}

/// An item whose first media version has a first file with key `k` is
/// streamed directly from `k`, whatever other files or versions follow:
/// `<base URL without trailing slashes><k>?X-Plex-Token=<encoded token>`.
pub proof fn law_playback_streams_first_part(
    item: MetadataItem,
    base_url: Seq<char>,
    token: Seq<char>,
    session_id: Seq<char>,
    k: Seq<char>,
)
    requires
        item.media is Some,
        item.media->0@.len() > 0,
        item.media->0@[0].parts is Some,
        item.media->0@[0].parts->0@.len() > 0,
        item.media->0@[0].parts->0@[0].key is Some,
        item.media->0@[0].parts->0@[0].key->0@ == k,
    ensures
        spec_playback_url(item, base_url, token, session_id) == Some(
            trim_trailing_slashes(base_url) + k + "?X-Plex-Token="@ + percent_encode(token),
        ),
{
}

/// An item without a media version, or whose first version has no file,
/// has nothing to play.
pub proof fn law_playback_needs_a_file(item: MetadataItem, base_url: Seq<char>, token: Seq<char>, session_id: Seq<char>)
    requires
        item.media is None || item.media->0@.len() == 0 || item.media->0@[0].parts is None
            || item.media->0@[0].parts->0@.len() == 0,
    ensures
        spec_playback_url(item, base_url, token, session_id) is None,
{
}

/// An item whose first file has no key is transcoded over HLS from its
/// metadata key.
pub proof fn law_playback_transcodes_keyless_part(
    item: MetadataItem,
    base_url: Seq<char>,
    token: Seq<char>,
    session_id: Seq<char>,
)
    requires
        item.media is Some,
        item.media->0@.len() > 0,
        item.media->0@[0].parts is Some,
        item.media->0@[0].parts->0@.len() > 0,
        item.media->0@[0].parts->0@[0].key is None,
    ensures
        spec_playback_url(item, base_url, token, session_id) == Some(
            trim_trailing_slashes(base_url) + "/video/:/transcode/universal/start.m3u8?path="@
                + percent_encode(item.key@) + "&mediaIndex=0&partIndex=0&protocol=hls&session="@
                + percent_encode(session_id) + "&X-Plex-Token="@ + percent_encode(token)
                + "&X-Plex-Product=Simplex&X-Plex-Client-Identifier=simplex-app"@,
        ),
{
}

} // verus!
