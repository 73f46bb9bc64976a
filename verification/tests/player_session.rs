use simplex_core::library::{AdjacentEpisodes, Marker, MediaInfo, MediaPart, MetadataItem};
use simplex_core::playback::TimelineState;
use simplex_core::player_session::{
    adjacent_cache, play_state_changed, player_show_name, scan_markers, skip_label, sync_context,
    timeline_state_for, timeline_sync_due, MarkerScan, UpNextAction, UpNextState,
};

const BASE: &str = "http://localhost:32400";

fn episode(rating_key: &str, playable: bool) -> MetadataItem {
    MetadataItem {
        rating_key: rating_key.into(),
        key: format!("/library/metadata/{rating_key}"),
        guid: None,
        external_guids: vec![],
        title: format!("Episode {rating_key}"),
        media_type: Some("episode".into()),
        summary: None,
        year: None,
        originally_available_at: None,
        thumb: Some(format!("/thumb/{rating_key}")),
        art: None,
        parent_thumb: None,
        grandparent_thumb: None,
        duration: None,
        added_at: None,
        updated_at: None,
        view_count: None,
        rating_bits: None,
        audience_rating_bits: None,
        user_rating_bits: None,
        album_type: None,
        parent_year: None,
        last_viewed_at: None,
        view_offset: None,
        parent_rating_key: None,
        grandparent_rating_key: None,
        parent_title: None,
        grandparent_title: None,
        parent_index: Some(2),
        index: Some(5),
        leaf_count: None,
        viewed_leaf_count: None,
        media: if playable {
            Some(vec![MediaInfo {
                id: Some(1),
                duration: None,
                bitrate: None,
                width: None,
                height: None,
                video_codec: None,
                audio_codec: None,
                audio_channels: None,
                container: None,
                video_resolution: None,
                parts: Some(vec![MediaPart {
                    id: Some(2),
                    key: Some(format!("/library/parts/{rating_key}/file.mkv")),
                    duration: None,
                    file: None,
                    size: None,
                    container: None,
                    streams: None,
                }]),
            }])
        } else {
            None
        },
        markers: vec![],
    }
}

fn marker(kind: &str, start: u64, end: u64) -> Marker {
    Marker { id: None, marker_type: Some(kind.into()), start_time_offset: Some(start), end_time_offset: Some(end) }
}

#[test]
fn adjacent_cache_keeps_both_neighbours() {
    let adj = AdjacentEpisodes { previous: Some(episode("1", false)), current: episode("2", true), next: Some(episode("3", true)) };
    let cache = adjacent_cache(&adj, BASE, "tok");
    assert_eq!(cache.prev_url, None);
    assert_eq!(cache.prev_title, Some("Episode 1".to_string()));
    assert_eq!(cache.next_url, Some(format!("{BASE}/library/parts/3/file.mkv?X-Plex-Token=tok")));
    assert_eq!(cache.next_thumb, Some(format!("{BASE}/thumb/3?X-Plex-Token=tok")));
    assert_eq!((cache.next_parent_index, cache.next_index), (Some(2), Some(5)));
    assert!(cache.prev_target().is_none());
    let next = cache.next_target().unwrap();
    assert_eq!((next.title.as_str(), next.rating_key.as_str()), ("Episode 3", "3"));
    assert_eq!(cache.up_next_card(), ("Episode 3".to_string(), "S2 \u{00b7} E5".to_string()));
}

#[test]
fn up_next_card_without_title() {
    let adj = AdjacentEpisodes { previous: None, current: episode("2", true), next: None };
    let cache = adjacent_cache(&adj, BASE, "tok");
    assert!(cache.next_target().is_none());
    assert_eq!(cache.up_next_card(), ("Next Episode".to_string(), String::new()));
}

#[test]
fn markers_choose_the_skip_button() {
    let markers = vec![marker("intro", 0, 30_000), marker("credits", 1_000_000, 1_200_000)];
    let s = scan_markers(&markers, 10_000);
    assert_eq!(s, MarkerScan { in_intro: true, in_credits: false, skip_to_ms: Some(30_000) });
    assert_eq!(skip_label(&s), Some("Skip Intro".to_string()));
    let s = scan_markers(&markers, 1_100_000);
    assert_eq!(skip_label(&s), Some("Skip Credits".to_string()));
    assert_eq!(s.skip_to_ms, Some(1_200_000));
    let s = scan_markers(&markers, 30_000);
    assert_eq!(skip_label(&s), None);
    assert_eq!(s.skip_to_ms, None);
}

#[test]
fn overlapping_markers_prefer_intro_and_take_the_last_end() {
    let markers = vec![marker("intro", 0, 50_000), marker("credits", 10_000, 40_000)];
    let s = scan_markers(&markers, 20_000);
    assert!(s.in_intro && s.in_credits);
    assert_eq!(skip_label(&s), Some("Skip Intro".to_string()));
    assert_eq!(s.skip_to_ms, Some(40_000));
}

#[test]
fn countdown_runs_five_seconds_then_plays() {
    let mut s = UpNextState::new();
    let actions: Vec<UpNextAction> = (0..10).map(|_| s.step(true, true, false, false)).collect();
    assert_eq!(
        actions,
        vec![
            UpNextAction::ShowCard,
            UpNextAction::Count(4),
            UpNextAction::Nothing,
            UpNextAction::Count(3),
            UpNextAction::Nothing,
            UpNextAction::Count(2),
            UpNextAction::Nothing,
            UpNextAction::Count(1),
            UpNextAction::Nothing,
            UpNextAction::PlayNext,
        ]
    );
}

#[test]
fn countdown_waits_for_credits_or_the_end() {
    let mut s = UpNextState::new();
    assert_eq!(s.step(false, true, false, false), UpNextAction::Nothing);
    assert_eq!(s.step(false, true, false, true), UpNextAction::ShowCard);
}

#[test]
fn music_and_missing_next_never_count() {
    let mut s = UpNextState::new();
    assert_eq!(s.step(true, true, true, true), UpNextAction::Nothing);
    assert_eq!(s.step(true, false, false, true), UpNextAction::Nothing);
    assert_eq!(s, UpNextState::new());
}

#[test]
fn dismissed_card_stays_closed() {
    let mut s = UpNextState::new();
    assert_eq!(s.step(true, true, false, false), UpNextAction::ShowCard);
    s.dismiss();
    for _ in 0..20 {
        assert_eq!(s.step(true, true, false, false), UpNextAction::Nothing);
    }
}

#[test]
fn reports_are_due_every_five_seconds() {
    assert!(timeline_sync_due(None, 0));
    assert!(!timeline_sync_due(Some(1_000), 5_999));
    assert!(timeline_sync_due(Some(1_000), 6_000));
    assert!(!timeline_sync_due(Some(1_000), 500));
    assert!(play_state_changed(Some(true), false));
    assert!(!play_state_changed(None, true));
    assert!(!play_state_changed(Some(false), false));
    assert_eq!(timeline_state_for(true), TimelineState::Playing);
    assert_eq!(timeline_state_for(false), TimelineState::Paused);
}

#[test]
fn sync_context_needs_token_server_and_item() {
    let c = sync_context(&Some("tok".into()), &Some(BASE.into()), &Some("42".into())).unwrap();
    assert_eq!(c.metadata_key, "/library/metadata/42");
    assert_eq!(c.rating_key, "42");
    assert!(sync_context(&None, &Some(BASE.into()), &Some("42".into())).is_none());
}

#[test]
fn show_name_over_the_title() {
    let mut ep = episode("1", true);
    assert_eq!(player_show_name(&ep), "Episode 1");
    ep.grandparent_title = Some("The Show".into());
    assert_eq!(player_show_name(&ep), "The Show");
}
