use simplex_core::tracks::{
    audio_track_count, preferred_audio_track, streams_for_audio, streams_for_text, subtitle_track_count,
};

fn ids(v: &[Option<&str>]) -> Vec<Option<String>> {
    v.iter().map(|o| o.map(|s| s.to_string())).collect()
}

fn strings(v: &[&str]) -> Vec<String> {
    v.iter().map(|s| s.to_string()).collect()
}

#[test]
fn audio_count_prefers_pipeline_count() {
    assert_eq!(audio_track_count(Some(3), 1, true), 3);
}

#[test]
fn audio_count_falls_back_to_streams() {
    assert_eq!(audio_track_count(Some(0), 2, true), 2);
    assert_eq!(audio_track_count(None, 2, false), 2);
}

#[test]
fn audio_count_assumes_one_while_playing() {
    assert_eq!(audio_track_count(Some(0), 0, true), 1);
    assert_eq!(audio_track_count(None, 0, false), 0);
}

#[test]
fn subtitle_count_falls_back_to_streams() {
    assert_eq!(subtitle_track_count(Some(4), 1), 4);
    assert_eq!(subtitle_track_count(Some(0), 2), 2);
    assert_eq!(subtitle_track_count(None, 0), 0);
}

#[test]
fn audio_switch_keeps_video_and_current_subtitle() {
    let video = ids(&[Some("v0"), Some("v1")]);
    let audio = ids(&[Some("a0"), Some("a1")]);
    let text = ids(&[Some("t0"), Some("t1")]);
    assert_eq!(streams_for_audio(&video, &audio, &text, 1, 1), strings(&["v0", "a1", "t1"]));
    assert_eq!(streams_for_audio(&video, &audio, &text, 0, -1), strings(&["v0", "a0"]));
}

#[test]
fn audio_switch_skips_missing_streams() {
    let video = ids(&[None]);
    let audio = ids(&[Some("a0")]);
    let text = ids(&[Some("t0")]);
    assert_eq!(streams_for_audio(&video, &audio, &text, 5, 7), Vec::<String>::new());
    assert_eq!(streams_for_audio(&video, &audio, &text, 0, 0), strings(&["a0", "t0"]));
}

#[test]
fn audio_switch_without_streams_asks_nothing() {
    let text = ids(&[Some("t0")]);
    assert!(streams_for_audio(&vec![], &vec![], &text, 0, 0).is_empty());
}

#[test]
fn subtitle_switch_keeps_video_and_audio() {
    let video = ids(&[Some("v0")]);
    let audio = ids(&[Some("a0"), Some("a1")]);
    let text = ids(&[Some("t0"), Some("t1")]);
    assert_eq!(streams_for_text(&video, &audio, &text, Some(0), 1), strings(&["v0", "a1", "t0"]));
    assert_eq!(streams_for_text(&video, &audio, &text, None, 0), strings(&["v0", "a0"]));
    assert!(streams_for_text(&vec![], &vec![], &text, Some(0), 0).is_empty());
}

#[test]
fn preferred_track_follows_preference_order() {
    let langs = ids(&[Some("eng"), Some("jpn"), Some("ger")]);
    assert_eq!(preferred_audio_track(&strings(&["jpn", "eng"]), &langs, 0), Some(1));
    assert_eq!(preferred_audio_track(&strings(&["fre", "GER"]), &langs, 0), Some(2));
}

#[test]
fn preferred_track_already_playing_is_no_switch() {
    let langs = ids(&[Some("eng"), Some("jpn")]);
    assert_eq!(preferred_audio_track(&strings(&["jpn"]), &langs, 1), None);
}

#[test]
fn preferred_track_none_when_no_language_matches() {
    let langs = ids(&[None, Some("eng")]);
    assert_eq!(preferred_audio_track(&strings(&["fre"]), &langs, 0), None);
    assert_eq!(preferred_audio_track(&vec![], &langs, 0), None);
}
