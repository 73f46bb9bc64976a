use simplex_core::display::{
    audio_track_label, capitalize, format_duration, format_track_duration, hex_lower, track_label,
    track_subtitle, truncate_text,
};
use simplex_core::library::MetadataItem;

fn make_item(artist: Option<&str>, album: Option<&str>) -> MetadataItem {
    MetadataItem {
        rating_key: "1".into(),
        key: "/k".into(),
        guid: None,
        external_guids: vec![],
        title: "Song".into(),
        media_type: Some("track".into()),
        summary: None,
        year: None,
        originally_available_at: None,
        thumb: None,
        art: None,
        parent_thumb: None,
        grandparent_thumb: None,
        duration: None,
        added_at: None,
        updated_at: None,
        view_count: None,
        rating_bits: None,
        audience_rating_bits: None,
        user_rating_bits: None,
        album_type: None,
        parent_year: None,
        last_viewed_at: None,
        view_offset: None,
        parent_rating_key: None,
        grandparent_rating_key: None,
        parent_title: album.map(String::from),
        grandparent_title: artist.map(String::from),
        parent_index: None,
        index: None,
        leaf_count: None,
        viewed_leaf_count: None,
        media: None,
        markers: vec![],
    }
}

#[test]
fn test_format_duration_hours_and_minutes() {
    assert_eq!(format_duration(7_200_000), "2h 0m");
}

#[test]
fn test_format_duration_minutes_only() {
    assert_eq!(format_duration(300_000), "5m");
}

#[test]
fn test_format_duration_zero() {
    assert_eq!(format_duration(0), "0m");
}

#[test]
fn test_format_duration_mixed() {
    assert_eq!(format_duration(5_400_000), "1h 30m");
}

#[test]
fn test_format_duration_seconds_ignored() {
    assert_eq!(format_duration(90_500), "1m");
}

#[test]
fn test_capitalize_normal() {
    assert_eq!(capitalize("hello"), "Hello");
}

#[test]
fn test_capitalize_empty() {
    assert_eq!(capitalize(""), "");
}

#[test]
fn test_capitalize_already_upper() {
    assert_eq!(capitalize("World"), "World");
}

#[test]
fn test_capitalize_single_char() {
    assert_eq!(capitalize("a"), "A");
}

#[test]
fn test_truncate_text_short() {
    assert_eq!(truncate_text("hello", 10), "hello");
}

#[test]
fn test_truncate_text_exact() {
    assert_eq!(truncate_text("hello", 5), "hello");
}

#[test]
fn test_truncate_text_long() {
    assert_eq!(truncate_text("hello world", 5), "hello...");
}

#[test]
fn test_truncate_text_empty() {
    assert_eq!(truncate_text("", 5), "");
}

#[test]
fn test_format_track_duration_simple() {
    assert_eq!(format_track_duration(65_000), "1:05");
}

#[test]
fn test_format_track_duration_zero() {
    assert_eq!(format_track_duration(0), "0:00");
}

#[test]
fn test_format_track_duration_minutes() {
    assert_eq!(format_track_duration(180_000), "3:00");
}

#[test]
fn test_format_track_duration_with_seconds() {
    assert_eq!(format_track_duration(245_000), "4:05");
}

#[test]
fn test_track_label_lang_and_title() {
    assert_eq!(
        track_label(0, Some("eng"), Some("English")),
        "ENG — English"
    );
}

#[test]
fn test_track_label_lang_only() {
    assert_eq!(track_label(0, Some("spa"), None), "SPA");
}

#[test]
fn test_track_label_title_only() {
    assert_eq!(track_label(0, None, Some("Commentary")), "Commentary");
}

#[test]
fn test_track_label_neither() {
    assert_eq!(track_label(0, None, None), "Track 1");
    assert_eq!(track_label(4, None, None), "Track 5");
}

#[test]
fn test_track_label_uppercase() {
    assert_eq!(track_label(0, Some("fre"), None), "FRE");
}

// ---- audio_track_label --------------------------------------------------

#[test]
fn test_audio_track_label_lang_and_title_ignores_codec() {
    assert_eq!(
        audio_track_label(0, Some("eng"), Some("Surround"), Some("AAC")),
        "ENG — Surround"
    );
}

#[test]
fn test_audio_track_label_lang_only_ignores_codec() {
    assert_eq!(audio_track_label(0, Some("eng"), None, Some("AAC")), "ENG");
}

#[test]
fn test_audio_track_label_no_lang_no_title_shows_codec() {
    assert_eq!(
        audio_track_label(0, None, None, Some("AAC")),
        "Track 1 (AAC)"
    );
}

#[test]
fn test_audio_track_label_no_lang_no_title_no_codec() {
    assert_eq!(audio_track_label(2, None, None, None), "Track 3");
}

#[test]
fn test_audio_track_label_title_only_ignores_codec() {
    assert_eq!(
        audio_track_label(0, None, Some("Director's Commentary"), Some("MP3")),
        "Director's Commentary"
    );
}
#[test]
fn test_track_subtitle_both() {
    let item = make_item(Some("Artist"), Some("Album"));
    assert_eq!(track_subtitle(&item), Some("Artist - Album".to_string()));
}

#[test]
fn test_track_subtitle_artist_only() {
    let item = make_item(Some("Artist"), None);
    assert_eq!(track_subtitle(&item), Some("Artist".to_string()));
}

#[test]
fn test_track_subtitle_album_only() {
    let item = make_item(None, Some("Album"));
    assert_eq!(track_subtitle(&item), Some("Album".to_string()));
}

#[test]
fn test_track_subtitle_neither() {
    let item = make_item(None, None);
    assert_eq!(track_subtitle(&item), None);
}

#[test]
fn test_track_subtitle_empty_strings_treated_as_none() {
    let mut item = make_item(None, None);
    item.grandparent_title = Some("".to_string());
    item.parent_title = Some("".to_string());
    assert_eq!(track_subtitle(&item), None);
}

#[test]
fn test_hex_lower_two_digits_per_byte() {
    assert_eq!(hex_lower(&[0x00, 0x0f, 0xa0, 0xff]), "000fa0ff");
    assert_eq!(hex_lower(&[]), "");
}

#[test]
fn test_capitalize_non_ascii() {
    assert_eq!(capitalize("\u{e9}t\u{e9}"), "\u{c9}t\u{e9}");
}
