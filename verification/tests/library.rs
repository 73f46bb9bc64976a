use simplex_core::library::{
    adjacent_in_siblings, album_rating_keys, api_url, build_library_filter_query, discography_from,
    find_adjacent, merge_children, next_episode_in_season, next_episode_seasons, pick_next_episode,
    sibling_lookup, SiblingLookup, sort_by_index, sort_popular_tracks, split_discography_items, thumb_url,
    LibraryError, LibraryFilter, MetadataItem,
};

#[test]
fn test_thumb_url() {
    let url = thumb_url("http://localhost:32400", "mytoken", "/library/metadata/123/thumb/456");
    assert_eq!(url, "http://localhost:32400/library/metadata/123/thumb/456?X-Plex-Token=mytoken");
}

#[test]
fn test_thumb_url_trailing_slash() {
    let url = thumb_url("http://localhost:32400/", "tok", "/thumb/1");
    assert_eq!(url, "http://localhost:32400/thumb/1?X-Plex-Token=tok");
}

fn make_item(overrides: impl FnOnce(&mut MetadataItem)) -> MetadataItem {
    let mut item = MetadataItem {
        rating_key: "1".into(),
        key: "/library/metadata/1".into(),
        guid: None,
        external_guids: vec![],
        title: "Test".into(),
        media_type: None,
        summary: None,
        year: None,
        originally_available_at: None,
        thumb: None,
        art: None,
        parent_thumb: None,
        grandparent_thumb: None,
        duration: None,
        added_at: None,
        updated_at: None,
        view_count: None,
        rating_bits: None,
        audience_rating_bits: None,
        user_rating_bits: None,
        album_type: None,
        parent_year: None,
        last_viewed_at: None,
        view_offset: None,
        parent_rating_key: None,
        grandparent_rating_key: None,
        parent_title: None,
        grandparent_title: None,
        parent_index: None,
        index: None,
        leaf_count: None,
        viewed_leaf_count: None,
        media: None,
        markers: vec![],
    };
    overrides(&mut item);
    item
}

// -- best_thumb tests --

#[test]
fn test_best_thumb_prefers_own_thumb() {
    let item = make_item(|i| {
        i.thumb = Some("/thumb/own".into());
        i.parent_thumb = Some("/thumb/parent".into());
        i.grandparent_thumb = Some("/thumb/gp".into());
    });
    assert_eq!(item.best_thumb(), Some("/thumb/own"));
}

#[test]
fn test_best_thumb_falls_back_to_parent() {
    let item = make_item(|i| {
        i.parent_thumb = Some("/thumb/parent".into());
        i.grandparent_thumb = Some("/thumb/gp".into());
    });
    assert_eq!(item.best_thumb(), Some("/thumb/parent"));
}

#[test]
fn test_best_thumb_falls_back_to_grandparent() {
    let item = make_item(|i| {
        i.grandparent_thumb = Some("/thumb/gp".into());
    });
    assert_eq!(item.best_thumb(), Some("/thumb/gp"));
}

#[test]
fn test_best_thumb_returns_none_when_all_absent() {
    let item = make_item(|_| {});
    assert_eq!(item.best_thumb(), None);
}

#[test]
fn test_best_thumb_url_constructs_full_url() {
    let item = make_item(|i| {
        i.thumb = Some("/library/metadata/42/thumb/999".into());
    });
    let url = item.best_thumb_url("http://plex:32400", "tok123");
    assert_eq!(
        url,
        Some("http://plex:32400/library/metadata/42/thumb/999?X-Plex-Token=tok123".into())
    );
}

#[test]
fn test_best_thumb_url_returns_none_without_thumb() {
    let item = make_item(|_| {});
    assert_eq!(item.best_thumb_url("http://plex:32400", "tok"), None);
}

// -- display_subtitle tests --

#[test]
fn test_display_subtitle_episode_with_indices() {
    let item = make_item(|i| {
        i.title = "Pilot".into();
        i.grandparent_title = Some("Breaking Bad".into());
        i.parent_index = Some(1);
        i.index = Some(1);
    });
    assert_eq!(item.display_subtitle(), Some("Breaking Bad S01E01".into()));
}

#[test]
fn test_display_subtitle_episode_double_digit_indices() {
    let item = make_item(|i| {
        i.grandparent_title = Some("The Simpsons".into());
        i.parent_index = Some(12);
        i.index = Some(8);
    });
    assert_eq!(item.display_subtitle(), Some("The Simpsons S12E08".into()));
}

#[test]
fn test_display_subtitle_episode_without_indices() {
    let item = make_item(|i| {
        i.grandparent_title = Some("Lost".into());
    });
    assert_eq!(item.display_subtitle(), Some("Lost".into()));
}

#[test]
fn test_display_subtitle_episode_partial_index_only_season() {
    let item = make_item(|i| {
        i.grandparent_title = Some("Show".into());
        i.parent_index = Some(3);
        // index is None
    });
    assert_eq!(item.display_subtitle(), Some("Show".into()));
}

#[test]
fn test_display_subtitle_episode_partial_index_only_episode() {
    let item = make_item(|i| {
        i.grandparent_title = Some("Show".into());
        i.index = Some(5);
        // parent_index is None
    });
    assert_eq!(item.display_subtitle(), Some("Show".into()));
}

#[test]
fn test_display_subtitle_child_with_parent_title() {
    let item = make_item(|i| {
        i.parent_title = Some("Season 2".into());
    });
    assert_eq!(item.display_subtitle(), Some("Season 2".into()));
}

#[test]
fn test_display_subtitle_movie_with_year() {
    let item = make_item(|i| {
        i.title = "The Matrix".into();
        i.year = Some(1999);
    });
    assert_eq!(item.display_subtitle(), Some("1999".into()));
}

#[test]
fn test_display_subtitle_no_metadata_returns_none() {
    let item = make_item(|_| {});
    assert_eq!(item.display_subtitle(), None);
}

#[test]
fn test_display_subtitle_grandparent_takes_priority_over_parent() {
    let item = make_item(|i| {
        i.grandparent_title = Some("Show".into());
        i.parent_title = Some("Season 1".into());
        i.parent_index = Some(1);
        i.index = Some(3);
        i.year = Some(2020);
    });
    assert_eq!(item.display_subtitle(), Some("Show S01E03".into()));
}

#[test]
fn test_display_subtitle_parent_takes_priority_over_year() {
    let item = make_item(|i| {
        i.parent_title = Some("Season 1".into());
        i.year = Some(2020);
    });
    assert_eq!(item.display_subtitle(), Some("Season 1".into()));
}

// -- find_adjacent tests --

fn make_episode(rk: &str, title: &str) -> MetadataItem {
    make_item(|i| {
        i.rating_key = rk.into();
        i.key = format!("/library/metadata/{}", rk);
        i.title = title.into();
    })
}

#[test]
fn test_sort_popular_tracks_prefers_rating_then_views() {
    let a = make_item(|i| {
        i.rating_key = "a".into();
        i.user_rating_bits = Some(7.0f32.to_bits());
        i.view_count = Some(100);
    });
    let b = make_item(|i| {
        i.rating_key = "b".into();
        i.user_rating_bits = Some(9.0f32.to_bits());
        i.view_count = Some(5);
    });
    let c = make_item(|i| {
        i.rating_key = "c".into();
        i.user_rating_bits = Some(7.0f32.to_bits());
        i.view_count = Some(300);
    });
    let sorted = sort_popular_tracks(vec![a, b, c]);
    assert_eq!(sorted[0].rating_key, "b");
    assert_eq!(sorted[1].rating_key, "c");
    assert_eq!(sorted[2].rating_key, "a");
}

#[test]
fn test_split_discography_items_groups_and_orders() {
    let album = make_item(|i| {
        i.rating_key = "album".into();
        i.title = "Main Album".into();
        i.media_type = Some("album".into());
        i.year = Some(2020);
    });
    let ep = make_item(|i| {
        i.rating_key = "ep".into();
        i.title = "EP One".into();
        i.media_type = Some("album".into());
        i.album_type = Some("ep".into());
        i.year = Some(2019);
    });
    let single = make_item(|i| {
        i.rating_key = "single".into();
        i.title = "Single One".into();
        i.media_type = Some("album".into());
        i.album_type = Some("single".into());
        i.year = Some(2022);
    });
    let (albums, eps_singles) = split_discography_items(vec![single, album, ep]);
    assert_eq!(albums.len(), 1);
    assert_eq!(albums[0].rating_key, "album");
    assert_eq!(eps_singles.len(), 2);
    assert_eq!(eps_singles[0].rating_key, "ep");
    assert_eq!(eps_singles[1].rating_key, "single");
}

#[test]
fn test_find_adjacent_middle() {
    let episodes = vec![
        make_episode("10", "Ep1"),
        make_episode("11", "Ep2"),
        make_episode("12", "Ep3"),
    ];
    let result = find_adjacent(&episodes, "11").unwrap();
    assert_eq!(result.current.rating_key, "11");
    assert_eq!(result.previous.as_ref().unwrap().rating_key, "10");
    assert_eq!(result.next.as_ref().unwrap().rating_key, "12");
}

#[test]
fn test_find_adjacent_first_has_no_prev() {
    let episodes = vec![
        make_episode("10", "Ep1"),
        make_episode("11", "Ep2"),
    ];
    let result = find_adjacent(&episodes, "10").unwrap();
    assert!(result.previous.is_none());
    assert_eq!(result.next.as_ref().unwrap().rating_key, "11");
}

#[test]
fn test_find_adjacent_last_has_no_next() {
    let episodes = vec![
        make_episode("10", "Ep1"),
        make_episode("11", "Ep2"),
    ];
    let result = find_adjacent(&episodes, "11").unwrap();
    assert_eq!(result.previous.as_ref().unwrap().rating_key, "10");
    assert!(result.next.is_none());
}

#[test]
fn test_find_adjacent_single_item() {
    let episodes = vec![make_episode("10", "Only")];
    let result = find_adjacent(&episodes, "10").unwrap();
    assert!(result.previous.is_none());
    assert!(result.next.is_none());
    assert_eq!(result.current.title, "Only");
}

#[test]
fn test_find_adjacent_not_found() {
    let episodes = vec![make_episode("10", "Ep1")];
    assert!(find_adjacent(&episodes, "999").is_none());
}

#[test]
fn test_find_adjacent_empty_list() {
    let episodes: Vec<MetadataItem> = vec![];
    assert!(find_adjacent(&episodes, "1").is_none());
}

#[test]
fn test_build_library_filter_query() {
    let filter = LibraryFilter {
        genre: Some("Sci-Fi".into()),
        year: Some("2024".into()),
        content_rating: Some("TV-MA".into()),
        resolution: Some("4k".into()),
        unwatched_only: true,
        audio_language: Some("en".into()),
        sort: Some("addedAt:desc".into()),
    };

    let query = build_library_filter_query(&filter);
    assert!(query.contains(&("genre".to_string(), "Sci-Fi".to_string())));
    assert!(query.contains(&("year".to_string(), "2024".to_string())));
    assert!(query.contains(&("contentRating".to_string(), "TV-MA".to_string())));
    assert!(query.contains(&("resolution".to_string(), "4k".to_string())));
    assert!(query.contains(&("unwatched".to_string(), "1".to_string())));
    assert!(query.contains(&("audioLanguage".to_string(), "en".to_string())));
    assert!(query.contains(&("sort".to_string(), "addedAt:desc".to_string())));
}

#[test]
fn test_build_library_filter_query_empty() {
    let query = build_library_filter_query(&LibraryFilter::default());
    assert!(query.is_empty());
}

#[test]
fn test_api_url_trims_trailing_slashes() {
    assert_eq!(api_url("http://plex:32400//", "/library/sections"), "http://plex:32400/library/sections");
}

#[test]
fn test_merge_children_keeps_order_and_drops_unkeyed() {
    let leaves = vec![make_episode("1", "a"), make_episode("", "virtual")];
    let dirs = vec![make_episode("2", "b")];
    let all = merge_children(leaves, dirs);
    let keys: Vec<&str> = all.iter().map(|i| i.rating_key.as_str()).collect();
    assert_eq!(keys, vec!["1", "2"]);
}

#[test]
fn item_without_parent_stands_alone_and_missing_sibling_errors() {
    let mut ep = make_episode("5", "E");
    match sibling_lookup(ep.clone()) {
        SiblingLookup::Alone(a) => {
            assert!(a.previous.is_none() && a.next.is_none());
            assert_eq!(a.current.rating_key, "5");
        }
        _ => panic!("expected the item alone"),
    }
    ep.parent_rating_key = Some("77".into());
    match sibling_lookup(ep) {
        SiblingLookup::Siblings(k) => assert_eq!(k, "77"),
        _ => panic!("expected the parent's children"),
    }
    let sibs = vec![make_episode("4", "D")];
    match adjacent_in_siblings(&sibs, "5") {
        Err(LibraryError::Parse(m)) => assert_eq!(m, "Item 5 not found in siblings"),
        _ => panic!("expected a parse error"),
    }
}

#[test]
fn test_sort_popular_tracks_falls_back_to_audience_then_critic_rating() {
    let a = make_item(|i| { i.rating_key = "a".into(); i.rating_bits = Some(8.0f32.to_bits()); });
    let b = make_item(|i| { i.rating_key = "b".into(); i.audience_rating_bits = Some(6.0f32.to_bits()); i.rating_bits = Some(9.5f32.to_bits()); });
    let c = make_item(|i| { i.rating_key = "c".into(); });
    let sorted = sort_popular_tracks(vec![c, b, a]);
    let keys: Vec<&str> = sorted.iter().map(|i| i.rating_key.as_str()).collect();
    assert_eq!(keys, vec!["a", "b", "c"]);
}

#[test]
fn test_sort_popular_tracks_keeps_ties_in_order() {
    let a = make_item(|i| { i.rating_key = "a".into(); i.view_count = Some(3); });
    let b = make_item(|i| { i.rating_key = "b".into(); i.view_count = Some(3); });
    let neg = make_item(|i| { i.rating_key = "n".into(); i.user_rating_bits = Some((-1.0f32).to_bits()); });
    let sorted = sort_popular_tracks(vec![neg, a, b]);
    let keys: Vec<&str> = sorted.iter().map(|i| i.rating_key.as_str()).collect();
    assert_eq!(keys, vec!["a", "b", "n"]);
}

#[test]
fn test_split_discography_orders_by_year_then_title_and_drops_non_albums() {
    let x = make_item(|i| { i.rating_key = "x".into(); i.title = "Beta".into(); i.media_type = Some("album".into()); i.year = Some(2001); });
    let y = make_item(|i| { i.rating_key = "y".into(); i.title = "Alpha".into(); i.media_type = Some("album".into()); i.parent_year = Some(2001); });
    let t = make_item(|i| { i.rating_key = "t".into(); i.media_type = Some("track".into()); });
    let s = make_item(|i| { i.rating_key = "s".into(); i.media_type = Some("album".into()); i.album_type = Some("Single".into()); });
    let (albums, short) = split_discography_items(vec![x, t, y, s]);
    let keys: Vec<&str> = albums.iter().map(|i| i.rating_key.as_str()).collect();
    assert_eq!(keys, vec!["y", "x"]);
    assert_eq!(short.len(), 1);
    assert_eq!(short[0].rating_key, "s");
}

#[test]
fn test_album_rating_keys_lists_albums_only() {
    let items = vec![
        make_item(|i| { i.rating_key = "1".into(); i.media_type = Some("album".into()); }),
        make_item(|i| { i.rating_key = "2".into(); i.media_type = Some("track".into()); }),
        make_item(|i| { i.rating_key = "3".into(); i.media_type = Some("album".into()); }),
    ];
    assert_eq!(album_rating_keys(&items), vec!["1".to_string(), "3".to_string()]);
}

#[test]
fn test_discography_from_limits_popular_tracks_to_ten() {
    let tracks: Vec<MetadataItem> = (0..12u32)
        .map(|n| make_item(|i| { i.rating_key = n.to_string(); i.view_count = Some(n); }))
        .collect();
    let d = discography_from(vec![], tracks);
    assert_eq!(d.popular_tracks.len(), 10);
    assert_eq!(d.popular_tracks[0].rating_key, "11");
    assert_eq!(d.popular_tracks[9].rating_key, "2");
    assert!(d.albums.is_empty());
    assert!(d.eps_and_singles.is_empty());
}

#[test]
fn test_next_episode_seasons_orders_seasons_and_drops_others() {
    let items = vec![
        make_item(|i| { i.rating_key = "s2".into(); i.media_type = Some("season".into()); i.index = Some(2); }),
        make_item(|i| { i.rating_key = "x".into(); i.media_type = Some("episode".into()); i.index = Some(0); }),
        make_item(|i| { i.rating_key = "sp".into(); i.media_type = Some("season".into()); }),
        make_item(|i| { i.rating_key = "s1".into(); i.media_type = Some("season".into()); i.index = Some(1); }),
    ];
    let seasons = next_episode_seasons(items);
    let keys: Vec<&str> = seasons.iter().map(|i| i.rating_key.as_str()).collect();
    assert_eq!(keys, vec!["s1", "s2", "sp"]);
}

#[test]
fn test_next_episode_prefers_in_progress_then_unwatched() {
    let eps = vec![
        make_item(|i| { i.rating_key = "3".into(); i.index = Some(3); }),
        make_item(|i| { i.rating_key = "1".into(); i.index = Some(1); i.view_count = Some(1); }),
        make_item(|i| { i.rating_key = "2".into(); i.index = Some(2); i.view_offset = Some(1000); }),
    ];
    assert_eq!(next_episode_in_season(eps).unwrap().rating_key, "2");
    let eps = vec![
        make_item(|i| { i.rating_key = "3".into(); i.index = Some(3); }),
        make_item(|i| { i.rating_key = "1".into(); i.index = Some(1); i.view_count = Some(1); }),
        make_item(|i| { i.rating_key = "2".into(); i.index = Some(2); i.view_count = Some(0); }),
    ];
    assert_eq!(next_episode_in_season(eps).unwrap().rating_key, "2");
    let watched = vec![make_item(|i| { i.view_count = Some(2); })];
    assert!(pick_next_episode(&watched).is_none());
}

#[test]
fn test_sort_by_index_puts_unnumbered_last() {
    let items = vec![
        make_item(|i| { i.rating_key = "none".into(); }),
        make_item(|i| { i.rating_key = "b".into(); i.index = Some(5); }),
        make_item(|i| { i.rating_key = "a".into(); i.index = Some(0); }),
    ];
    let keys: Vec<String> = sort_by_index(items).into_iter().map(|i| i.rating_key).collect();
    assert_eq!(keys, vec!["a", "b", "none"]);
}
