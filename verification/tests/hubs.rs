use simplex_core::hubs::{continue_watching_items, deduplicate_hubs, on_deck_items, Hub};
use simplex_core::library::MetadataItem;


fn make_hub(title: &str, identifier: Option<&str>, items: Vec<&str>) -> Hub {
    Hub {
        title: title.to_string(),
        hub_type: None,
        hub_identifier: identifier.map(String::from),
        size: Some(items.len() as u32),
        metadata: items.into_iter().map(|t| MetadataItem {
            rating_key: "1".to_string(),
            key: "/library/metadata/1".to_string(),
            guid: None,
            external_guids: vec![],
            title: t.to_string(),
            media_type: None,
            summary: None,
            year: None,
            originally_available_at: None,
            thumb: None,
            art: None,
            parent_thumb: None,
            grandparent_thumb: None,
            duration: None,
            added_at: None,
            updated_at: None,
            view_count: None,
            rating_bits: None,
            audience_rating_bits: None,
            user_rating_bits: None,
            album_type: None,
            parent_year: None,
            last_viewed_at: None,
            view_offset: None,
            parent_rating_key: None,
            grandparent_rating_key: None,
            parent_title: None,
            grandparent_title: None,
            parent_index: None,
            index: None,
            leaf_count: None,
            viewed_leaf_count: None,
            media: None,
            markers: vec![],
        }).collect(),
    }
}

#[test]
fn test_continue_watching_filter() {
    let hubs = vec![
        make_hub("Continue Watching", Some("home.continue"), vec!["Item A"]),
        make_hub("Recently Added", Some("home.recent"), vec!["Item B"]),
        make_hub("In Progress", Some("hub.tv.inprogress"), vec!["Item C"]),
    ];

    let cw = continue_watching_items(hubs);

    assert_eq!(cw.len(), 2);
    assert_eq!(cw[0].title, "Item A");
    assert_eq!(cw[1].title, "Item C");
}

#[test]
fn test_on_deck_filter() {
    let hubs = vec![
        make_hub("On Deck", Some("hub.tv.ondeck"), vec!["Episode 1"]),
        make_hub("Continue Watching", Some("home.continue"), vec!["Movie A"]),
    ];

    let od = on_deck_items(hubs);

    assert_eq!(od.len(), 1);
    assert_eq!(od[0].title, "Episode 1");
}

// -- deduplicate_hubs --

fn make_hub_with_keys(title: &str, items: Vec<(&str, &str)>) -> Hub {
    Hub {
        title: title.to_string(),
        hub_type: None,
        hub_identifier: None,
        size: Some(items.len() as u32),
        metadata: items.into_iter().map(|(key, name)| MetadataItem {
            rating_key: key.to_string(),
            key: format!("/library/metadata/{}", key),
            guid: None,
            external_guids: vec![],
            title: name.to_string(),
            media_type: None,
            summary: None,
            year: None,
            originally_available_at: None,
            thumb: None,
            art: None,
            parent_thumb: None,
            grandparent_thumb: None,
            duration: None,
            added_at: None,
            updated_at: None,
            view_count: None,
            rating_bits: None,
            audience_rating_bits: None,
            user_rating_bits: None,
            album_type: None,
            parent_year: None,
            last_viewed_at: None,
            view_offset: None,
            parent_rating_key: None,
            grandparent_rating_key: None,
            parent_title: None,
            grandparent_title: None,
            parent_index: None,
            index: None,
            leaf_count: None,
            viewed_leaf_count: None,
            media: None,
            markers: vec![],
        }).collect(),
    }
}

#[test]
fn test_deduplicate_removes_overlap() {
    let hubs = vec![
        make_hub_with_keys("Continue Watching", vec![("1", "Show A"), ("2", "Show B")]),
        make_hub_with_keys("On Deck", vec![("2", "Show B"), ("3", "Show C")]),
    ];
    let result = deduplicate_hubs(hubs);
    assert_eq!(result.len(), 2);
    assert_eq!(result[0].metadata.len(), 2);
    assert_eq!(result[1].metadata.len(), 1);
    assert_eq!(result[1].metadata[0].title, "Show C");
}

#[test]
fn test_deduplicate_drops_empty_hubs() {
    let hubs = vec![
        make_hub_with_keys("Continue Watching", vec![("1", "Show A"), ("2", "Show B")]),
        make_hub_with_keys("On Deck", vec![("1", "Show A"), ("2", "Show B")]),
    ];
    let result = deduplicate_hubs(hubs);
    assert_eq!(result.len(), 1);
    assert_eq!(result[0].title, "Continue Watching");
}

#[test]
fn test_deduplicate_preserves_order() {
    let hubs = vec![
        make_hub_with_keys("Hub 1", vec![("1", "A"), ("3", "C")]),
        make_hub_with_keys("Hub 2", vec![("2", "B"), ("3", "C"), ("4", "D")]),
        make_hub_with_keys("Hub 3", vec![("4", "D"), ("5", "E")]),
    ];
    let result = deduplicate_hubs(hubs);
    assert_eq!(result.len(), 3);
    assert_eq!(result[0].metadata.len(), 2); // A, C
    assert_eq!(result[1].metadata.len(), 2); // B, D
    assert_eq!(result[2].metadata.len(), 1); // E
}

#[test]
fn test_deduplicate_no_overlap() {
    let hubs = vec![
        make_hub_with_keys("Hub 1", vec![("1", "A")]),
        make_hub_with_keys("Hub 2", vec![("2", "B")]),
    ];
    let result = deduplicate_hubs(hubs);
    assert_eq!(result.len(), 2);
    assert_eq!(result[0].metadata.len(), 1);
    assert_eq!(result[1].metadata.len(), 1);
}

#[test]
fn test_deduplicate_empty_input() {
    let result = deduplicate_hubs(vec![]);
    assert!(result.is_empty());
}

#[test]
fn test_deduplicate_single_hub() {
    let hubs = vec![
        make_hub_with_keys("Hub 1", vec![("1", "A"), ("2", "B")]),
    ];
    let result = deduplicate_hubs(hubs);
    assert_eq!(result.len(), 1);
    assert_eq!(result[0].metadata.len(), 2);
}

#[test]
fn test_continue_watching_matches_title_case_insensitively() {
    let hubs = vec![
        make_hub("CONTINUE WATCHING (TV)", None, vec!["T"]),
        make_hub("Recently Added", None, vec!["R"]),
    ];
    let cw = continue_watching_items(hubs);
    assert_eq!(cw.len(), 1);
    assert_eq!(cw[0].title, "T");
}

#[test]
fn test_on_deck_matches_title() {
    let hubs = vec![make_hub("TV On Deck", Some("other"), vec!["E"])];
    assert_eq!(on_deck_items(hubs).len(), 1);
}

#[test]
fn test_deduplicate_repeated_item_in_one_hub() {
    let hubs = vec![make_hub_with_keys("A", vec![("1", "x"), ("1", "again"), ("2", "y")])];
    let result = deduplicate_hubs(hubs);
    assert_eq!(result[0].metadata.len(), 2);
    assert_eq!(result[0].metadata[0].title, "x");
    assert_eq!(result[0].metadata[1].title, "y");
}

#[test]
fn hub_failure_recognises_expired_sessions() {
    let f = simplex_core::hubs::hub_failure("HTTP error: 401 Unauthorized");
    assert!(f.is_auth_failure);
    assert_eq!(f.message, "Your Plex session has expired. Please sign in again.");
    let f = simplex_core::hubs::hub_failure("connection refused");
    assert!(!f.is_auth_failure);
    assert_eq!(f.message, "Could not load your Plex home feed. Please check connectivity and try again.");
}
