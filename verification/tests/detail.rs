use simplex_core::detail::{
    album_ref, back_navigation, children_section, collection_actions, detail_fetch, detail_summary,
    episode_meta_parts, episode_summary, index_from_clock, meta_line, meta_parts, parent_button, parent_link,
    play_buttons, pseudo_random_index, resume_label, resume_offset_ms, season_subtitle, section_heading,
    show_link, shows_progress, shows_watched_mark, AlbumRef, BackNavigation, ChildrenSection, CollectionAction,
    DetailFetch, PlayButtons,
};
use simplex_core::library::{MediaInfo, MetadataItem};

fn make_item(media_type: Option<&str>) -> MetadataItem {
    MetadataItem {
        rating_key: "1".into(),
        key: "/library/metadata/1".into(),
        guid: None,
        external_guids: vec![],
        title: "Pilot".into(),
        media_type: media_type.map(String::from),
        summary: None,
        year: None,
        originally_available_at: None,
        thumb: None,
        art: None,
        parent_thumb: None,
        grandparent_thumb: None,
        duration: None,
        added_at: None,
        updated_at: None,
        view_count: None,
        rating_bits: None,
        audience_rating_bits: None,
        user_rating_bits: None,
        album_type: None,
        parent_year: None,
        last_viewed_at: None,
        view_offset: None,
        parent_rating_key: None,
        grandparent_rating_key: None,
        parent_title: None,
        grandparent_title: None,
        parent_index: None,
        index: None,
        leaf_count: None,
        viewed_leaf_count: None,
        media: None,
        markers: vec![],
    }
}

fn media(resolution: Option<&str>, codec: Option<&str>) -> MediaInfo {
    MediaInfo {
        id: Some(1),
        duration: None,
        bitrate: None,
        width: None,
        height: None,
        video_codec: codec.map(String::from),
        audio_codec: None,
        audio_channels: None,
        container: None,
        video_resolution: resolution.map(String::from),
        parts: None,
    }
}

#[test]
fn test_pseudo_random_index_zero_len() {
    assert_eq!(pseudo_random_index(0), 0);
}

#[test]
fn test_pseudo_random_index_one() {
    assert_eq!(pseudo_random_index(1), 0);
}

#[test]
fn test_pseudo_random_index_in_range() {
    let idx = pseudo_random_index(100);
    assert!(idx < 100);
}

#[test]
fn clock_reading_picks_by_remainder() {
    assert_eq!(index_from_clock(Some(1_000_000_007), 10), 7);
    assert_eq!(index_from_clock(None, 10), 0);
}

#[test]
fn meta_line_lists_year_type_length_and_video() {
    let mut item = make_item(Some("movie"));
    item.year = Some(2020);
    item.duration = Some(7_380_000);
    item.media = Some(vec![media(Some("1080"), Some("h264")), media(Some("480"), None)]);
    let parts = meta_parts(&item);
    assert_eq!(parts, vec!["2020", "Movie", "2h 3m", "1080p", "H264"]);
    assert_eq!(meta_line(&parts), Some("2020 \u{2022} Movie \u{2022} 2h 3m \u{2022} 1080p \u{2022} H264".to_string()));
}

#[test]
fn meta_line_empty_without_parts() {
    let item = make_item(None);
    assert!(meta_parts(&item).is_empty());
    assert_eq!(meta_line(&vec![]), None);
}

#[test]
fn hierarchy_links_name_show_and_parent() {
    let mut ep = make_item(Some("episode"));
    ep.grandparent_title = Some("Show".into());
    ep.grandparent_rating_key = Some("10".into());
    ep.parent_title = Some("Season 1".into());
    ep.parent_rating_key = Some("11".into());
    let show = show_link(&ep).unwrap();
    assert_eq!((show.label.as_str(), show.name.as_str(), show.rating_key.as_str()), ("Show:", "Show", "10"));
    let parent = parent_link(&ep).unwrap();
    assert_eq!((parent.label.as_str(), parent.name.as_str(), parent.rating_key.as_str()), ("Season:", "Season 1", "11"));

    let mut track = make_item(Some("track"));
    track.parent_title = Some("Album".into());
    track.parent_rating_key = Some("20".into());
    assert_eq!(parent_link(&track).unwrap().label, "Album:");
    let mut clip = make_item(Some("clip"));
    clip.parent_title = Some("Folder".into());
    clip.parent_rating_key = Some("30".into());
    assert_eq!(parent_link(&clip).unwrap().label, "Parent:");
    assert!(show_link(&clip).is_none());
}

#[test]
fn play_buttons_need_a_playable_item_with_media() {
    let mut movie = make_item(Some("movie"));
    assert_eq!(play_buttons(&movie), None);
    movie.media = Some(vec![media(None, None)]);
    assert_eq!(play_buttons(&movie), Some(PlayButtons::Play));
    movie.view_offset = Some(0);
    assert_eq!(play_buttons(&movie), Some(PlayButtons::Play));
    movie.view_offset = Some(90_000);
    assert_eq!(play_buttons(&movie), Some(PlayButtons::ResumeOrRestart { offset_ms: 90_000 }));
    let mut show = make_item(Some("show"));
    show.media = Some(vec![media(None, None)]);
    assert_eq!(play_buttons(&show), None);
    let mut untyped = make_item(None);
    untyped.media = Some(vec![media(None, None)]);
    assert_eq!(play_buttons(&untyped), Some(PlayButtons::Play));
}

#[test]
fn resume_label_shows_the_position() {
    assert_eq!(resume_label(3_900_000), "Resume from 1h 5m");
}

#[test]
fn parent_button_opens_season_or_album() {
    let mut ep = make_item(Some("episode"));
    ep.media = Some(vec![media(None, None)]);
    ep.parent_title = Some("Season 2".into());
    ep.parent_rating_key = Some("12".into());
    let b = parent_button(&ep).unwrap();
    assert_eq!((b.label.as_str(), b.parent_key.as_str(), b.tooltip.as_str()), ("View Full Season", "12", "Open Season 2"));
    let mut track = ep.clone();
    track.media_type = Some("track".into());
    assert_eq!(parent_button(&track).unwrap().label, "View Full Album");
    let mut movie = ep.clone();
    movie.media_type = Some("movie".into());
    assert!(parent_button(&movie).is_none());
    ep.media = None;
    assert!(parent_button(&ep).is_none());
}

#[test]
fn show_offers_its_next_episode() {
    let show = make_item(Some("show"));
    let mut next = make_item(Some("episode"));
    next.title = "Second".into();
    let actions = collection_actions(&show, &Some(next.clone()), 0, None);
    assert_eq!(actions.len(), 1);
    assert_eq!(actions[0].label(), "Play \"Second\"");
    next.view_offset = Some(5_000);
    let actions = collection_actions(&show, &Some(next), 0, None);
    match &actions[0] {
        CollectionAction::PlayNextEpisode { label, offset_ms } => {
            assert_eq!(label, "Resume \"Second\"");
            assert_eq!(*offset_ms, Some(5_000));
        }
        _ => panic!("expected the next episode"),
    }
    assert!(collection_actions(&show, &None, 3, None).is_empty());
}

#[test]
fn album_and_artist_offer_play_and_shuffle() {
    let album = make_item(Some("album"));
    let labels: Vec<String> = collection_actions(&album, &None, 2, None).iter().map(|a| a.label()).collect();
    assert_eq!(labels, vec!["Play Album", "Shuffle"]);
    assert_eq!(collection_actions(&album, &None, 1, None).len(), 1);
    assert!(collection_actions(&album, &None, 0, None).is_empty());
    let artist = make_item(Some("artist"));
    let labels: Vec<String> = collection_actions(&artist, &None, 0, Some(5)).iter().map(|a| a.label()).collect();
    assert_eq!(labels, vec!["Play All", "Shuffle"]);
    assert!(collection_actions(&artist, &None, 4, None).is_empty());
    assert!(collection_actions(&make_item(Some("movie")), &None, 4, Some(4)).is_empty());
}

#[test]
fn artist_summary_is_cut() {
    let mut artist = make_item(Some("artist"));
    artist.summary = Some("x".repeat(900));
    assert_eq!(detail_summary(&artist).unwrap().chars().count(), 803);
    let mut movie = make_item(Some("movie"));
    movie.summary = Some("x".repeat(900));
    assert_eq!(detail_summary(&movie).unwrap().len(), 900);
    movie.summary = Some(String::new());
    assert_eq!(detail_summary(&movie), None);
}

#[test]
fn children_list_follows_the_type() {
    assert_eq!(children_section(&make_item(Some("artist")), true, 0), ChildrenSection::Discography);
    assert_eq!(children_section(&make_item(Some("season")), false, 0), ChildrenSection::Nothing);
    assert_eq!(children_section(&make_item(Some("season")), false, 3), ChildrenSection::Episodes);
    assert_eq!(children_section(&make_item(Some("album")), false, 3), ChildrenSection::Tracks);
    assert_eq!(children_section(&make_item(Some("show")), false, 3), ChildrenSection::Seasons);
    assert_eq!(children_section(&make_item(Some("collection")), false, 3), ChildrenSection::Items);
    assert_eq!(section_heading(&ChildrenSection::Seasons), Some("Seasons".to_string()));
    assert_eq!(section_heading(&ChildrenSection::Discography), None);
}

#[test]
fn episode_rows() {
    let mut ep = make_item(Some("episode"));
    ep.duration = Some(1_500_000);
    ep.originally_available_at = Some("2021-03-04".into());
    ep.summary = Some("y".repeat(130));
    assert_eq!(episode_meta_parts(&ep), vec!["25m", "2021-03-04"]);
    assert_eq!(episode_summary(&ep).unwrap().chars().count(), 123);
    assert!(!shows_progress(&ep));
    ep.view_offset = Some(60_000);
    assert!(shows_progress(&ep));
    assert_eq!(resume_offset_ms(&ep), Some(60_000));
    ep.view_count = Some(1);
    assert!(!shows_watched_mark(&ep));
    ep.view_offset = None;
    assert!(shows_watched_mark(&ep));
    assert_eq!(resume_offset_ms(&ep), None);
}

#[test]
fn season_cards_count_watched_episodes() {
    let mut season = make_item(Some("season"));
    season.leaf_count = Some(10);
    season.viewed_leaf_count = Some(10);
    assert_eq!(season_subtitle(&season), Some("All 10 episodes watched".to_string()));
    season.viewed_leaf_count = Some(4);
    assert_eq!(season_subtitle(&season), Some("4 of 10 watched".to_string()));
    season.viewed_leaf_count = Some(0);
    assert_eq!(season_subtitle(&season), Some("10 episodes".to_string()));
    season.viewed_leaf_count = None;
    assert_eq!(season_subtitle(&season), Some("10 episodes".to_string()));
    season.leaf_count = None;
    season.year = Some(1999);
    assert_eq!(season_subtitle(&season), Some("1999".to_string()));
}

#[test]
fn popular_tracks_name_their_album() {
    let mut track = make_item(Some("track"));
    assert!(matches!(album_ref(&track), AlbumRef::Nothing));
    track.parent_title = Some("Blue".into());
    match album_ref(&track) {
        AlbumRef::Text(t) => assert_eq!(t, "\u{2022} Blue"),
        _ => panic!("expected text"),
    }
    track.parent_rating_key = Some("5".into());
    match album_ref(&track) {
        AlbumRef::Link { name, rating_key } => assert_eq!((name.as_str(), rating_key.as_str()), ("Blue", "5")),
        _ => panic!("expected a link"),
    }
    track.parent_title = None;
    match album_ref(&track) {
        AlbumRef::Link { name, .. } => assert_eq!(name, "Album"),
        _ => panic!("expected a link"),
    }
}

#[test]
fn back_goes_up_then_back() {
    match back_navigation(&Some("9".to_string()), &None) {
        BackNavigation::ParentDetail { item_key, via_view } => {
            assert_eq!(item_key, "9");
            assert_eq!(via_view, "on-deck");
        }
        _ => panic!("expected the parent"),
    }
    match back_navigation(&None, &Some("library".to_string())) {
        BackNavigation::ShowView(v) => assert_eq!(v, "library"),
        _ => panic!("expected a view"),
    }
}

#[test]
fn extra_fetches_by_type() {
    assert_eq!(detail_fetch(&make_item(Some("artist"))), DetailFetch { discography: true, next_episode: false });
    assert_eq!(detail_fetch(&make_item(Some("show"))), DetailFetch { discography: false, next_episode: true });
    assert_eq!(detail_fetch(&make_item(None)), DetailFetch { discography: false, next_episode: false });
}
