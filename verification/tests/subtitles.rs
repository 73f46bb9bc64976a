use simplex_core::subtitles::{SubtitleManager, SUBTITLES_OFF};
use std::cell::Cell;

fn lookup(langs: Vec<Option<String>>, titles: Vec<Option<String>>) -> impl Fn(i32) -> (Option<String>, Option<String>) {
    move |i| (langs[i as usize].clone(), titles[i as usize].clone())
}

#[test]
fn test_list_tracks_empty() {
    let tracks = SubtitleManager::list_tracks(0, lookup(vec![], vec![]));
    assert!(tracks.is_empty());
}

#[test]
fn test_list_tracks_single() {
    let tracks = SubtitleManager::list_tracks(1, lookup(vec![Some("eng".to_string())], vec![Some("English".to_string())]));
    assert_eq!(tracks.len(), 1);
    assert_eq!(tracks[0].index, 0);
    assert_eq!(tracks[0].language, Some("eng".to_string()));
    assert_eq!(tracks[0].title, Some("English".to_string()));
}

#[test]
fn test_list_tracks_multiple() {
    let tracks = SubtitleManager::list_tracks(
        3,
        lookup(
            vec![Some("eng".to_string()), Some("spa".to_string()), None],
            vec![Some("English".to_string()), None, Some("Commentary".to_string())],
        ),
    );
    assert_eq!(tracks.len(), 3);
    assert_eq!(tracks[2].index, 2);
    assert_eq!(tracks[2].language, None);
    assert_eq!(tracks[2].title, Some("Commentary".to_string()));
}

#[test]
fn test_select_track() {
    let selected = Cell::new(None);
    SubtitleManager::select_track(|i| selected.set(Some(i)), 2);
    assert_eq!(selected.get(), Some(2));
}

#[test]
fn test_disable() {
    let selected = Cell::new(None);
    SubtitleManager::disable(|i| selected.set(Some(i)));
    assert_eq!(selected.get(), Some(-1));
    assert_eq!(SUBTITLES_OFF, -1);
}
