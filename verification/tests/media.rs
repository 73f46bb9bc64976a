use simplex_core::config::{MismatchAction, UserSettings};
use simplex_core::media::{
    evaluate_track_action, AudioTrack, MediaSession, MismatchWarning, PlaybackState, TrackAction,
    TrackEvent, TrackPreference,
};


fn make_session(
    available_audio_tracks: Vec<AudioTrack>,
    preferred_languages: Vec<&str>,
    pause_on_mismatch: bool,
) -> MediaSession {
    let mut session = MediaSession::new();
    session.available_audio_tracks = available_audio_tracks;
    session.track_preference = TrackPreference {
        preferred_languages: preferred_languages
            .iter()
            .map(|s| (*s).to_string())
            .collect(),
        pause_on_mismatch,
        mismatch_action: if pause_on_mismatch {
            MismatchAction::Pause
        } else {
            MismatchAction::Ignore
        },
    };
    session
}

#[test]
fn test_evaluate_audio_track_change_track_matches_preferred() {
    // Track matches preferred language -> returns None
    let session = make_session(
        vec![
            AudioTrack {
                index: 0,
                language: Some("eng".to_string()),
                title: None,
                codec: None,
                channels: None,
            },
            AudioTrack {
                index: 1,
                language: Some("spa".to_string()),
                title: None,
                codec: None,
                channels: None,
            },
        ],
        vec!["eng", "en"],
        true,
    );

    let new_track = AudioTrack {
        index: 0,
        language: Some("eng".to_string()),
        title: None,
        codec: None,
        channels: None,
    };

    assert!(session.evaluate_audio_track_change(&new_track).is_none());
}

#[test]
fn test_evaluate_audio_track_change_preferred_track_exists() {
    // Track doesn't match but a preferred track exists -> returns None
    let session = make_session(
        vec![
            AudioTrack {
                index: 0,
                language: Some("eng".to_string()),
                title: None,
                codec: None,
                channels: None,
            },
            AudioTrack {
                index: 1,
                language: Some("spa".to_string()),
                title: None,
                codec: None,
                channels: None,
            },
        ],
        vec!["eng", "en"],
        true,
    );

    let new_track = AudioTrack {
        index: 1,
        language: Some("spa".to_string()),
        title: None,
        codec: None,
        channels: None,
    };

    assert!(session.evaluate_audio_track_change(&new_track).is_none());
}

#[test]
fn test_evaluate_audio_track_change_no_preferred_track_available() {
    // Track doesn't match and no preferred track available -> returns PauseRequested
    let session = make_session(
        vec![
            AudioTrack {
                index: 0,
                language: Some("spa".to_string()),
                title: None,
                codec: None,
                channels: None,
            },
            AudioTrack {
                index: 1,
                language: Some("fra".to_string()),
                title: None,
                codec: None,
                channels: None,
            },
        ],
        vec!["eng", "en"],
        true,
    );

    let new_track = AudioTrack {
        index: 0,
        language: Some("spa".to_string()),
        title: None,
        codec: None,
        channels: None,
    };

    let result = session.evaluate_audio_track_change(&new_track);
    match &result {
        Some(TrackEvent::PauseRequested { reason }) => {
            assert!(reason.contains("spa"));
            assert!(reason.contains("eng"));
        }
        _ => panic!("Expected PauseRequested, got {:?}", result),
    }
}

#[test]
fn test_evaluate_audio_track_change_pause_on_mismatch_false() {
    // pause_on_mismatch is false -> always returns None
    let session = make_session(
        vec![AudioTrack {
            index: 0,
            language: Some("spa".to_string()),
            title: None,
            codec: None,
            channels: None,
        }],
        vec!["eng", "en"],
        false,
    );

    let new_track = AudioTrack {
        index: 0,
        language: Some("spa".to_string()),
        title: None,
        codec: None,
        channels: None,
    };

    assert!(session.evaluate_audio_track_change(&new_track).is_none());
}

#[test]
fn test_evaluate_audio_track_change_no_language_returns_none() {
    // Track with no language info -> returns None (can't evaluate)
    let session = make_session(
        vec![AudioTrack {
            index: 0,
            language: None,
            title: None,
            codec: None,
            channels: None,
        }],
        vec!["eng", "en"],
        true,
    );

    let new_track = AudioTrack {
        index: 0,
        language: None,
        title: None,
        codec: None,
        channels: None,
    };

    assert!(session.evaluate_audio_track_change(&new_track).is_none());
}

#[test]
fn test_evaluate_audio_track_change_case_insensitive() {
    // Preferred language match is case-insensitive
    let session = make_session(
        vec![AudioTrack {
            index: 0,
            language: Some("ENG".to_string()),
            title: None,
            codec: None,
            channels: None,
        }],
        vec!["eng"],
        true,
    );

    let new_track = AudioTrack {
        index: 0,
        language: Some("ENG".to_string()),
        title: None,
        codec: None,
        channels: None,
    };

    assert!(session.evaluate_audio_track_change(&new_track).is_none());
}

// -- TrackPreference::from_user_settings tests --

#[test]
fn test_from_user_settings_pause() {
    let mut settings = UserSettings::default();
    settings.audio.language_mismatch_action = MismatchAction::Pause;
    settings.audio.preferred_languages = vec!["jpn".to_string()];

    let pref = TrackPreference::from_user_settings(&settings);
    assert!(pref.pause_on_mismatch);
    assert_eq!(pref.mismatch_action, MismatchAction::Pause);
    assert_eq!(pref.preferred_languages, vec!["jpn"]);
}

#[test]
fn test_from_user_settings_warn_dialog() {
    let mut settings = UserSettings::default();
    settings.audio.language_mismatch_action = MismatchAction::WarnDialog;

    let pref = TrackPreference::from_user_settings(&settings);
    assert!(pref.pause_on_mismatch);
    assert_eq!(pref.mismatch_action, MismatchAction::WarnDialog);
}

#[test]
fn test_from_user_settings_ignore() {
    let mut settings = UserSettings::default();
    settings.audio.language_mismatch_action = MismatchAction::Ignore;

    let pref = TrackPreference::from_user_settings(&settings);
    assert!(!pref.pause_on_mismatch);
    assert_eq!(pref.mismatch_action, MismatchAction::Ignore);
}

#[test]
fn test_from_user_settings_inherits_languages() {
    let mut settings = UserSettings::default();
    settings.audio.preferred_languages =
        vec!["fra".to_string(), "deu".to_string(), "eng".to_string()];

    let pref = TrackPreference::from_user_settings(&settings);
    assert_eq!(pref.preferred_languages, vec!["fra", "deu", "eng"]);
}

#[test]
fn test_from_user_settings_empty_languages() {
    let mut settings = UserSettings::default();
    settings.audio.preferred_languages = Vec::new();

    let pref = TrackPreference::from_user_settings(&settings);
    assert!(pref.preferred_languages.is_empty());
}

#[test]
fn test_track_preference_default_has_warn_dialog() {
    let pref = TrackPreference::default();
    assert_eq!(pref.mismatch_action, MismatchAction::WarnDialog);
    assert!(pref.pause_on_mismatch);
    assert_eq!(pref.preferred_languages, vec!["eng", "en"]);
}


fn make_preference(action: MismatchAction, langs: Vec<&str>) -> TrackPreference {
    let pause = matches!(&action, MismatchAction::Pause | MismatchAction::WarnDialog);
    TrackPreference {
        mismatch_action: action,
        preferred_languages: langs.into_iter().map(String::from).collect(),
        pause_on_mismatch: pause,
    }
}

fn make_monitor_session(pref: TrackPreference) -> MediaSession {
    let mut session = MediaSession::new();
    session.track_preference = pref;
    // Set an initial track so the change detection triggers
    session.current_audio_track = Some(AudioTrack {
        index: 0,
        language: Some("eng".to_string()),
        title: None,
        codec: None,
        channels: None,
    });
    session
}

fn make_track(lang: Option<&str>) -> AudioTrack {
    AudioTrack {
        index: 1,
        language: lang.map(String::from),
        title: None,
        codec: None,
        channels: None,
    }
}

#[test]
fn test_evaluate_no_mismatch() {
    let pref = make_preference(MismatchAction::Pause, vec!["eng"]);
    let mut session = make_monitor_session(pref);
    let track = AudioTrack {
        index: 1,
        language: Some("eng".to_string()),
        title: None,
        codec: None,
        channels: None,
    };
    assert_eq!(evaluate_track_action(&mut session, &track), TrackAction::NoAction);
}

#[test]
fn test_evaluate_mismatch_pause() {
    let pref = make_preference(MismatchAction::Pause, vec!["eng"]);
    let mut session = make_monitor_session(pref);
    let track = make_track(Some("spa"));
    match evaluate_track_action(&mut session, &track) {
        TrackAction::Pause { reason } => assert!(!reason.is_empty()),
        other => panic!("Expected Pause, got {other:?}"),
    }
}

#[test]
fn test_evaluate_mismatch_warn_dialog() {
    let pref = make_preference(MismatchAction::WarnDialog, vec!["eng"]);
    let mut session = make_monitor_session(pref);
    let track = make_track(Some("spa"));
    match evaluate_track_action(&mut session, &track) {
        TrackAction::WarnAndPause { language, preferred, reason } => {
            assert_eq!(language, "spa");
            assert_eq!(preferred, "eng");
            assert!(!reason.is_empty());
        }
        other => panic!("Expected WarnAndPause, got {other:?}"),
    }
}

#[test]
fn test_evaluate_mismatch_ignore() {
    let pref = make_preference(MismatchAction::Ignore, vec!["eng"]);
    let mut session = make_monitor_session(pref);
    let track = make_track(Some("spa"));
    assert_eq!(evaluate_track_action(&mut session, &track), TrackAction::NoAction);
}

#[test]
fn test_evaluate_no_language_on_track() {
    let pref = make_preference(MismatchAction::Pause, vec!["eng"]);
    let mut session = make_monitor_session(pref);
    let track = make_track(None);
    // No language means we can't determine mismatch
    let action = evaluate_track_action(&mut session, &track);
    assert_eq!(action, TrackAction::NoAction);
}

#[test]
fn test_evaluate_warn_no_language_uses_unknown() {
    let pref = make_preference(MismatchAction::WarnDialog, vec!["eng"]);
    let mut session = MediaSession::new();
    session.track_preference = pref;
    // Set initial track with a language
    session.current_audio_track = Some(AudioTrack {
        index: 0,
        language: Some("eng".to_string()),
        title: None,
        codec: None,
        channels: None,
    });
    // Change to a track with a different language (not None, which returns TrackAction::NoAction)
    let track = make_track(Some("jpn"));
    match evaluate_track_action(&mut session, &track) {
        TrackAction::WarnAndPause { language, preferred, .. } => {
            assert_eq!(language, "jpn");
            assert_eq!(preferred, "eng");
        }
        other => panic!("Expected WarnAndPause, got {other:?}"),
    }
}

#[test]
fn test_evaluate_multiple_preferred_languages() {
    let pref = make_preference(MismatchAction::WarnDialog, vec!["eng", "fre"]);
    let mut session = make_monitor_session(pref);
    let track = make_track(Some("spa"));
    match evaluate_track_action(&mut session, &track) {
        TrackAction::WarnAndPause { preferred, .. } => {
            assert_eq!(preferred, "eng/fre");
        }
        other => panic!("Expected WarnAndPause, got {other:?}"),
    }
}

#[test]
fn test_mismatch_warning_debug() {
    let w = MismatchWarning {
        language: "spa".to_string(),
        preferred: "eng".to_string(),
    };
    let dbg = format!("{w:?}");
    assert!(dbg.contains("spa"));
}

#[test]
fn test_pause_reason_text() {
    let mut session = MediaSession::new();
    session.track_preference.preferred_languages = vec!["eng".to_string(), "en".to_string()];
    let track = AudioTrack { index: 2, language: Some("ger".to_string()), title: None, codec: None, channels: None };
    match session.evaluate_audio_track_change(&track) {
        Some(TrackEvent::PauseRequested { reason }) => {
            assert_eq!(reason, "Audio switched to ger -- no eng/en track available")
        }
        other => panic!("unexpected {:?}", other),
    }
}

#[test]
fn test_evaluate_track_action_records_current_track() {
    let mut session = MediaSession::new();
    let track = AudioTrack { index: 7, language: Some("eng".to_string()), title: Some("Main".to_string()), codec: None, channels: Some(6) };
    let _ = evaluate_track_action(&mut session, &track);
    let cur = session.current_audio_track.unwrap();
    assert_eq!(cur.index, 7);
    assert_eq!(cur.title.as_deref(), Some("Main"));
    assert_eq!(cur.channels, Some(6));
}

#[test]
fn test_media_session_defaults() {
    let s = MediaSession::default();
    assert_eq!(s.state, PlaybackState::Stopped);
    assert_eq!(f64::from_bits(s.volume_bits), 1.0);
    assert_eq!(s.position_ms, 0);
    assert!(s.media_url.is_none());
}
