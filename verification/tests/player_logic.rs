use simplex_core::config::MismatchAction;
use simplex_core::library::Marker;
use simplex_core::media::{MediaSession, SubtitleTrack, TrackPreference};
use simplex_core::player_logic::{
    active_marker, format_episode_line, format_up_next_subtitle, handle_settings_event, ActiveMarker,
    PipelineAudioSettings, PipelineUpdate, SettingsEvent,
};

fn make_marker(marker_type: &str, start: u64, end: u64) -> Marker {
    Marker {
        id: None,
        marker_type: Some(marker_type.to_string()),
        start_time_offset: Some(start),
        end_time_offset: Some(end),
    }
}

#[test]
fn test_active_marker_no_markers() {
    assert_eq!(active_marker(&[], 5000), None);
}

#[test]
fn test_active_marker_in_intro() {
    let markers = vec![make_marker("intro", 0, 30000)];
    let result = active_marker(&markers, 15000);
    assert_eq!(result, Some(ActiveMarker::Intro { skip_to_ms: 30000 }));
}

#[test]
fn test_active_marker_in_credits() {
    let markers = vec![make_marker("credits", 3500000, 3600000)];
    let result = active_marker(&markers, 3550000);
    assert_eq!(result, Some(ActiveMarker::Credits { skip_to_ms: 3600000 }));
}

#[test]
fn test_active_marker_outside_range() {
    let markers = vec![make_marker("intro", 0, 30000)];
    assert_eq!(active_marker(&markers, 30000), None);
    assert_eq!(active_marker(&markers, 50000), None);
}

#[test]
fn test_active_marker_at_exact_start() {
    let markers = vec![make_marker("intro", 10000, 20000)];
    assert_eq!(active_marker(&markers, 10000), Some(ActiveMarker::Intro { skip_to_ms: 20000 }));
}

#[test]
fn test_active_marker_at_exact_end_excluded() {
    let markers = vec![make_marker("intro", 10000, 20000)];
    assert_eq!(active_marker(&markers, 20000), None);
}

#[test]
fn test_active_marker_missing_offsets() {
    let marker = Marker {
        id: None,
        marker_type: Some("intro".to_string()),
        start_time_offset: None,
        end_time_offset: Some(30000),
    };
    assert_eq!(active_marker(&[marker], 15000), None);
}

#[test]
fn test_active_marker_unknown_type_ignored() {
    let markers = vec![make_marker("chapter", 0, 30000)];
    assert_eq!(active_marker(&markers, 15000), None);
}

#[test]
fn test_active_marker_intro_takes_priority_over_later_markers() {
    let markers = vec![make_marker("intro", 0, 30000), make_marker("credits", 0, 30000)];
    let result = active_marker(&markers, 15000);
    assert_eq!(result, Some(ActiveMarker::Intro { skip_to_ms: 30000 }));
}

#[test]
fn test_format_episode_line_full() {
    let line = format_episode_line(Some("Breaking Bad"), Some(2), Some(5), "Mandala");
    assert_eq!(line, "S2 \u{00b7} E5 \u{2014} Mandala");
}

#[test]
fn test_format_episode_line_no_indices() {
    let line = format_episode_line(Some("Breaking Bad"), None, None, "Mandala");
    assert_eq!(line, "Mandala");
}

#[test]
fn test_format_episode_line_no_grandparent() {
    let line = format_episode_line(None, Some(1), Some(1), "Pilot");
    assert_eq!(line, "");
}

#[test]
fn test_format_episode_line_partial_index() {
    let line = format_episode_line(Some("Show"), Some(3), None, "Title");
    assert_eq!(line, "Title");
}

#[test]
fn test_format_up_next_subtitle_full() {
    assert_eq!(format_up_next_subtitle(Some(2), Some(5)), "S2 \u{00b7} E5");
}

#[test]
fn test_format_up_next_subtitle_missing() {
    assert_eq!(format_up_next_subtitle(None, Some(5)), "");
    assert_eq!(format_up_next_subtitle(Some(2), None), "");
    assert_eq!(format_up_next_subtitle(None, None), "");
}

fn make_session() -> MediaSession {
    MediaSession {
        track_preference: TrackPreference {
            preferred_languages: vec!["eng".to_string()],
            pause_on_mismatch: true,
            mismatch_action: MismatchAction::WarnDialog,
        },
        ..Default::default()
    }
}

#[test]
fn test_handle_audio_languages_changed_updates_pipeline() {
    let mut session = make_session();
    let event = SettingsEvent::AudioLanguagesChanged(vec!["jpn".to_string()]);
    let update = handle_settings_event(&mut session, event);
    assert_eq!(update, PipelineUpdate::PreferLanguages(vec!["jpn".to_string()]));
}

#[test]
fn test_handle_audio_languages_changed_updates_session() {
    let mut session = make_session();
    let event = SettingsEvent::AudioLanguagesChanged(vec!["spa".to_string(), "es".to_string()]);
    handle_settings_event(&mut session, event);
    assert_eq!(session.track_preference.preferred_languages, vec!["spa".to_string(), "es".to_string()]);
}

#[test]
fn test_handle_audio_languages_changed_clears_session_override() {
    let mut pipeline = PipelineAudioSettings { preferred_languages: vec![], session_audio_override: true };
    let mut session = make_session();
    let event = SettingsEvent::AudioLanguagesChanged(vec!["jpn".to_string()]);
    pipeline.apply(handle_settings_event(&mut session, event));
    assert!(!pipeline.session_audio_override);
}

#[test]
fn mismatch_change_leaves_pipeline_settings() {
    let mut pipeline = PipelineAudioSettings { preferred_languages: vec!["eng".to_string()], session_audio_override: true };
    let mut session = make_session();
    let event = SettingsEvent::AudioMismatchActionChanged(MismatchAction::Pause);
    pipeline.apply(handle_settings_event(&mut session, event));
    assert!(pipeline.session_audio_override);
    assert_eq!(pipeline.preferred_languages, vec!["eng".to_string()]);
}

#[test]
fn test_handle_mismatch_action_changed_pause() {
    let mut session = make_session();
    let event = SettingsEvent::AudioMismatchActionChanged(MismatchAction::Pause);
    let update = handle_settings_event(&mut session, event);
    assert_eq!(update, PipelineUpdate::Unchanged);
    assert_eq!(session.track_preference.mismatch_action, MismatchAction::Pause);
    assert!(session.track_preference.pause_on_mismatch);
}

#[test]
fn test_handle_mismatch_action_changed_ignore() {
    let mut session = make_session();
    let event = SettingsEvent::AudioMismatchActionChanged(MismatchAction::Ignore);
    handle_settings_event(&mut session, event);
    assert_eq!(session.track_preference.mismatch_action, MismatchAction::Ignore);
    assert!(!session.track_preference.pause_on_mismatch);
}

#[test]
fn test_handle_mismatch_action_changed_warn_dialog() {
    let mut session = make_session();
    session.track_preference.pause_on_mismatch = false;
    let event = SettingsEvent::AudioMismatchActionChanged(MismatchAction::WarnDialog);
    handle_settings_event(&mut session, event);
    assert_eq!(session.track_preference.mismatch_action, MismatchAction::WarnDialog);
    assert!(session.track_preference.pause_on_mismatch);
}

#[test]
fn test_audio_change_does_not_affect_subtitle_settings() {
    let mut session = make_session();
    session.current_subtitle_track = Some(SubtitleTrack {
        index: 1,
        language: Some("eng".to_string()),
        title: Some("English".to_string()),
        codec: None,
        forced: false,
    });
    let event = SettingsEvent::AudioLanguagesChanged(vec!["jpn".to_string()]);
    handle_settings_event(&mut session, event);
    assert!(session.current_subtitle_track.is_some());
    assert_eq!(session.current_subtitle_track.as_ref().unwrap().language, Some("eng".to_string()));
}

#[test]
fn test_mismatch_change_does_not_affect_audio_languages() {
    let mut session = make_session();
    let event = SettingsEvent::AudioMismatchActionChanged(MismatchAction::Ignore);
    handle_settings_event(&mut session, event);
    assert_eq!(session.track_preference.preferred_languages, vec!["eng".to_string()]);
}

#[test]
fn choosing_a_track_overrides_until_languages_change() {
    let mut pipeline = PipelineAudioSettings { preferred_languages: vec!["eng".to_string()], session_audio_override: false };
    pipeline.choose_audio_track(Some("jpn".to_string()));
    assert_eq!(pipeline.preferred_languages, vec!["jpn".to_string()]);
    assert!(pipeline.session_audio_override);
    pipeline.choose_audio_track(None);
    assert_eq!(pipeline.preferred_languages, vec!["jpn".to_string()]);
    let mut session = make_session();
    let update = handle_settings_event(&mut session, SettingsEvent::AudioLanguagesChanged(vec!["ger".to_string()]));
    pipeline.apply(update);
    assert!(!pipeline.session_audio_override);
    assert_eq!(pipeline.preferred_languages, vec!["ger".to_string()]);
}
