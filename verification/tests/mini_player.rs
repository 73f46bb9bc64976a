use simplex_core::library::{AdjacentEpisodes, MediaInfo, MediaPart, MetadataItem};
use simplex_core::mini_player::{
    album_tracks, base_context, context_fetch, context_subtitle, context_with_album, context_with_episodes,
    nav_target, ContextFetch, MiniContext,
};

const BASE: &str = "http://localhost:32400";

fn make_item(rating_key: &str, media_type: &str, index: Option<u32>, playable: bool) -> MetadataItem {
    MetadataItem {
        rating_key: rating_key.into(),
        key: format!("/library/metadata/{rating_key}"),
        guid: None,
        external_guids: vec![],
        title: format!("Item {rating_key}"),
        media_type: Some(media_type.into()),
        summary: None,
        year: None,
        originally_available_at: None,
        thumb: None,
        art: None,
        parent_thumb: None,
        grandparent_thumb: None,
        duration: None,
        added_at: None,
        updated_at: None,
        view_count: None,
        rating_bits: None,
        audience_rating_bits: None,
        user_rating_bits: None,
        album_type: None,
        parent_year: None,
        last_viewed_at: None,
        view_offset: None,
        parent_rating_key: None,
        grandparent_rating_key: None,
        parent_title: None,
        grandparent_title: None,
        parent_index: None,
        index,
        leaf_count: None,
        viewed_leaf_count: None,
        media: if playable {
            Some(vec![MediaInfo {
                id: Some(1),
                duration: None,
                bitrate: None,
                width: None,
                height: None,
                video_codec: None,
                audio_codec: None,
                audio_channels: None,
                container: None,
                video_resolution: None,
                parts: Some(vec![MediaPart {
                    id: Some(2),
                    key: Some(format!("/library/parts/{rating_key}/file.flac")),
                    duration: None,
                    file: None,
                    size: None,
                    container: None,
                    streams: None,
                }]),
            }])
        } else {
            None
        },
        markers: vec![],
    }
}

fn empty_context() -> MiniContext {
    MiniContext { subtitle: Some("line".into()), artwork_url: None, prev: None, next: None }
}

fn part_url(rating_key: &str) -> String {
    format!("{BASE}/library/parts/{rating_key}/file.flac?X-Plex-Token=tok")
}

#[test]
fn track_subtitle_names_artist_and_album() {
    let mut item = make_item("1", "track", Some(1), true);
    item.grandparent_title = Some("Artist".into());
    item.parent_title = Some("Album".into());
    assert_eq!(context_subtitle(&item), Some("Artist - Album".to_string()));
}

#[test]
fn episode_subtitle_uses_show_and_numbers() {
    let mut item = make_item("1", "episode", Some(3), true);
    item.grandparent_title = Some("Show".into());
    item.parent_index = Some(1);
    assert_eq!(context_subtitle(&item), Some("Show S01E03".to_string()));
}

#[test]
fn base_context_has_artwork_and_no_neighbours() {
    let mut item = make_item("1", "movie", None, true);
    item.thumb = Some("/thumb/1".into());
    let ctx = base_context(&item, BASE, "tok");
    assert_eq!(ctx.artwork_url, Some(format!("{BASE}/thumb/1?X-Plex-Token=tok")));
    assert!(ctx.prev.is_none() && ctx.next.is_none());
}

#[test]
fn fetch_depends_on_type() {
    assert!(matches!(context_fetch(&make_item("1", "episode", None, true)), ContextFetch::Adjacent));
    let mut track = make_item("1", "track", None, true);
    assert!(matches!(context_fetch(&track), ContextFetch::Nothing));
    track.parent_rating_key = Some("50".into());
    match context_fetch(&track) {
        ContextFetch::AlbumTracks(k) => assert_eq!(k, "50"),
        _ => panic!("expected the album to be fetched"),
    }
    assert!(matches!(context_fetch(&make_item("1", "movie", None, true)), ContextFetch::Nothing));
}

#[test]
fn nav_target_plays_the_first_part() {
    let t = nav_target(&make_item("7", "track", None, true), BASE, "tok").unwrap();
    assert_eq!(t.uri, part_url("7"));
    assert_eq!(t.title, "Item 7");
    assert_eq!(t.rating_key, "7");
    assert!(nav_target(&make_item("8", "track", None, false), BASE, "tok").is_none());
}

#[test]
fn episodes_become_neighbours() {
    let adjacent = AdjacentEpisodes {
        previous: Some(make_item("1", "episode", Some(1), true)),
        current: make_item("2", "episode", Some(2), true),
        next: Some(make_item("3", "episode", Some(3), false)),
    };
    let ctx = context_with_episodes(empty_context(), &adjacent, BASE, "tok");
    assert_eq!(ctx.subtitle, Some("line".to_string()));
    assert_eq!(ctx.prev.unwrap().uri, part_url("1"));
    assert!(ctx.next.is_none());
}

#[test]
fn album_tracks_are_numbered_tracks_in_order() {
    let children = vec![
        make_item("c", "track", Some(3), true),
        make_item("x", "album", Some(1), true),
        make_item("a", "track", Some(1), true),
        make_item("u", "track", None, true),
        make_item("b", "track", Some(1), true),
    ];
    let keys: Vec<String> = album_tracks(children).into_iter().map(|t| t.rating_key).collect();
    assert_eq!(keys, vec!["u", "a", "b", "c"]);
}

#[test]
fn album_neighbours_around_the_track() {
    let children = vec![
        make_item("c", "track", Some(3), true),
        make_item("a", "track", Some(1), true),
        make_item("b", "track", Some(2), true),
    ];
    let ctx = context_with_album(empty_context(), children, "b", BASE, "tok");
    assert_eq!(ctx.prev.unwrap().rating_key, "a");
    assert_eq!(ctx.next.unwrap().rating_key, "c");
}

#[test]
fn album_ends_have_one_neighbour() {
    let children = vec![make_item("a", "track", Some(1), true), make_item("b", "track", Some(2), true)];
    let first = context_with_album(empty_context(), children.clone(), "a", BASE, "tok");
    assert!(first.prev.is_none());
    assert_eq!(first.next.unwrap().uri, part_url("b"));
    let missing = context_with_album(empty_context(), children, "z", BASE, "tok");
    assert!(missing.prev.is_none() && missing.next.is_none());
}
