//! The media session: playback state, the tracks on offer, and what to do
//! when playback switches to an audio language the user did not ask for.
use vstd::prelude::*;
use crate::config::{MismatchAction, UserSettings, default_audio_languages, default_audio_language_list, ONE_F64_BITS};
use crate::text::{
    copy_opt, copy_strings, eq_ignore_ascii_case, eq_ignore_ascii_case_str, join, opt_view, owned,
    seq_join, views,
};

verus! {

broadcast use vstd::string::group_string_axioms;

/// Which audio languages the user wants and what happens otherwise.
#[derive(Debug, Clone)]
pub struct TrackPreference {
    pub preferred_languages: Vec<String>,
    pub pause_on_mismatch: bool,
    pub mismatch_action: MismatchAction,
}

impl Default for TrackPreference {
    fn default() -> (p: Self)
        ensures
            views(p.preferred_languages@) == default_audio_languages(),
            p.pause_on_mismatch,
            p.mismatch_action == MismatchAction::WarnDialog,
    {
        TrackPreference {
            preferred_languages: default_audio_language_list(),
            pause_on_mismatch: true,
            mismatch_action: MismatchAction::WarnDialog,
        }
    }
}

impl TrackPreference {
    /// The preference the user's audio settings describe: playback is
    /// interrupted on a mismatch unless the action is to ignore it.
    pub fn from_user_settings(settings: &UserSettings) -> (p: Self)
        ensures
            views(p.preferred_languages@) == views(settings.audio.preferred_languages@),
            p.mismatch_action == settings.audio.language_mismatch_action,
            p.pause_on_mismatch <==> settings.audio.language_mismatch_action != MismatchAction::Ignore,
    {
        let action = settings.audio.language_mismatch_action;
        TrackPreference {
            preferred_languages: copy_strings(&settings.audio.preferred_languages),
            pause_on_mismatch: action != MismatchAction::Ignore,
            mismatch_action: action,
        }
    }
}

/// Something that happened to the tracks of the playing media.
#[derive(Debug, Clone)]
pub enum TrackEvent {
    AudioTrackChanged { index: i32, language: Option<String> },
    SubtitleTrackChanged { index: i32, language: Option<String> },
    PauseRequested { reason: String },
}

/// Where playback stands.
#[derive(Debug, Clone, Copy, PartialEq, Eq, Structural)]
pub enum PlaybackState {
    Stopped,
    Playing,
    Paused,
    Buffering,
}

/// An audio track of the playing media.
#[derive(Debug, Clone)]
pub struct AudioTrack {
    pub index: i32,
    pub language: Option<String>,
    pub title: Option<String>,
    pub codec: Option<String>,
    pub channels: Option<u32>,
}

/// An audio track as values.
pub struct AudioTrackView {
    pub index: i32,
    pub language: Option<Seq<char>>,
    pub title: Option<Seq<char>>,
    pub codec: Option<Seq<char>>,
    pub channels: Option<u32>,
}

impl View for AudioTrack {
    type V = AudioTrackView;

    open spec fn view(&self) -> AudioTrackView {
        AudioTrackView {
            index: self.index,
            language: opt_view(self.language),
            title: opt_view(self.title),
            codec: opt_view(self.codec),
            channels: self.channels,
        }
    }
}

impl AudioTrack {
    /// A field-by-field copy.
    pub fn duplicate(&self) -> (r: Self)
        ensures
            r@ == self@,
    {
        AudioTrack {
            index: self.index,
            language: copy_opt(&self.language),
            title: copy_opt(&self.title),
            codec: copy_opt(&self.codec),
            channels: self.channels,
        }
    }
}

/// A subtitle track of the playing media.
#[derive(Debug, Clone)]
pub struct SubtitleTrack {
    pub index: i32,
    pub language: Option<String>,
    pub title: Option<String>,
    pub codec: Option<String>,
    pub forced: bool,
}

/// The state of one playback session. The volume is a double kept by its
/// IEEE-754 bit pattern, which the library carries and never reads.
#[derive(Debug, Clone)]
pub struct MediaSession {
    pub state: PlaybackState,
    pub current_audio_track: Option<AudioTrack>,
    pub current_subtitle_track: Option<SubtitleTrack>,
    pub available_audio_tracks: Vec<AudioTrack>,
    pub available_subtitle_tracks: Vec<SubtitleTrack>,
    pub track_preference: TrackPreference,
    pub position_ms: u64,
    pub duration_ms: u64,
    pub volume_bits: u64,
    pub media_url: Option<String>,
    pub media_title: Option<String>,
}

impl Default for MediaSession {
    fn default() -> (s: Self)
        ensures
            s.state == PlaybackState::Stopped,
            s.current_audio_track is None,
            s.current_subtitle_track is None,
            s.available_audio_tracks@.len() == 0,
            s.available_subtitle_tracks@.len() == 0,
            views(s.track_preference.preferred_languages@) == default_audio_languages(),
            s.track_preference.pause_on_mismatch,
            s.track_preference.mismatch_action == MismatchAction::WarnDialog,
            s.position_ms == 0,
            s.duration_ms == 0,
            s.volume_bits == ONE_F64_BITS,
            s.media_url is None,
            s.media_title is None,
    {
        MediaSession {
            state: PlaybackState::Stopped,
            current_audio_track: None,
            current_subtitle_track: None,
            available_audio_tracks: Vec::new(),
            available_subtitle_tracks: Vec::new(),
            track_preference: TrackPreference::default(),
            position_ms: 0,
            duration_ms: 0,
            volume_bits: ONE_F64_BITS,
            media_url: None,
            media_title: None,
        }
    }
}

/// Whether `lang` is one of the preferred languages, up to ASCII case.
pub open spec fn prefers(prefs: Seq<Seq<char>>, lang: Seq<char>) -> bool {
    exists|i: int| 0 <= i < prefs.len() && #[trigger] eq_ignore_ascii_case(prefs[i], lang)
}

/// The languages of a list of audio tracks.
pub open spec fn track_languages(tracks: Seq<AudioTrack>) -> Seq<Option<Seq<char>>> {
    tracks.map_values(|t: AudioTrack| opt_view(t.language))
}

/// Whether some track is in a preferred language.
pub open spec fn any_preferred(langs: Seq<Option<Seq<char>>>, prefs: Seq<Seq<char>>) -> bool {
    exists|j: int| 0 <= j < langs.len() && (#[trigger] langs[j] matches Some(l) && prefers(prefs, l))
}

/// The reason given for interrupting playback.
pub open spec fn mismatch_reason(lang: Seq<char>, prefs: Seq<Seq<char>>) -> Seq<char> {
    "Audio switched to "@ + lang + " -- no "@ + seq_join(prefs, "/"@) + " track available"@
}

/// Why a switch to an audio track in `new_lang` interrupts playback, if it
/// does: only when interruptions are wanted, the language is known, it is not
/// preferred, and no available track is in a preferred language.
pub open spec fn audio_change_reason(
    pause: bool,
    prefs: Seq<Seq<char>>,
    available: Seq<Option<Seq<char>>>,
    new_lang: Option<Seq<char>>,
) -> Option<Seq<char>> {
    if !pause {
        None
    } else {
        match new_lang {
            None => None,
            Some(l) => if prefers(prefs, l) || any_preferred(available, prefs) {
                None
            } else {
                Some(mismatch_reason(l, prefs))
            },
        }
    }
}

/// A track event as values.
pub enum TrackEventView {
    AudioTrackChanged { index: i32, language: Option<Seq<char>> },
    SubtitleTrackChanged { index: i32, language: Option<Seq<char>> },
    PauseRequested { reason: Seq<char> },
}

impl View for TrackEvent {
    type V = TrackEventView;

    open spec fn view(&self) -> TrackEventView {
        match self {
            TrackEvent::AudioTrackChanged { index, language } => TrackEventView::AudioTrackChanged {
                index: *index,
                language: opt_view(*language),
            },
            TrackEvent::SubtitleTrackChanged { index, language } => TrackEventView::SubtitleTrackChanged {
                index: *index,
                language: opt_view(*language),
            },
            TrackEvent::PauseRequested { reason } => TrackEventView::PauseRequested { reason: reason@ },
        }
    }
}

/// An optional track event, by its view.
pub open spec fn opt_event_view(e: Option<TrackEvent>) -> Option<TrackEventView> {
    match e {
        Some(ev) => Some(ev@),
        None => None,
    }
}

/// Whether `lang` is one of `prefs`, up to ASCII case.
pub fn prefers_exec(prefs: &Vec<String>, lang: &str) -> (r: bool)
    ensures
        r == prefers(views(prefs@), lang@),
{
    let ghost pv = views(prefs@);
    let mut i: usize = 0;
    while i < prefs.len()
        invariant
            pv == views(prefs@),
            i <= prefs.len(),
            forall|k: int| 0 <= k < i ==> !eq_ignore_ascii_case(#[trigger] pv[k], lang@),
        decreases prefs.len() - i,
    {
        assert(pv[i as int] == prefs@[i as int]@);
        if eq_ignore_ascii_case_str(prefs[i].as_str(), lang) {
            return true;
        }
        i += 1;
    }
    false
}

/// Whether some track is in one of the languages `prefs`.
pub fn any_preferred_exec(tracks: &Vec<AudioTrack>, prefs: &Vec<String>) -> (r: bool)
    ensures
        r == any_preferred(track_languages(tracks@), views(prefs@)),
{
    let ghost langs = track_languages(tracks@);
    let mut i: usize = 0;
    while i < tracks.len()
        invariant
            langs == track_languages(tracks@),
            i <= tracks.len(),
            forall|k: int| 0 <= k < i ==> !(#[trigger] langs[k] matches Some(l) && prefers(views(prefs@), l)),
        decreases tracks.len() - i,
    {
        assert(langs[i as int] == opt_view(tracks@[i as int].language));
        match &tracks[i].language {
            Some(l) => {
                if prefers_exec(prefs, l.as_str()) {
                    return true;
                }
            },
            None => {},
        }
        i += 1;
    }
    false
}

/// The reason given for interrupting playback.
fn mismatch_reason_exec(lang: &str, prefs: &Vec<String>) -> (r: String)
    ensures
        r@ == mismatch_reason(lang@, views(prefs@)),
{
    let mut r = owned("Audio switched to ");
    r.append(lang);
    r.append(" -- no ");
    let joined = join(prefs, "/");
    r.append(joined.as_str());
    r.append(" track available");
    r
}

impl MediaSession {
    /// A stopped session with the default preferences.
    pub fn new() -> (s: Self)
        ensures
            s.state == PlaybackState::Stopped,
            s.current_audio_track is None,
            s.current_subtitle_track is None,
            s.available_audio_tracks@.len() == 0,
            s.available_subtitle_tracks@.len() == 0,
            views(s.track_preference.preferred_languages@) == default_audio_languages(),
            s.track_preference.pause_on_mismatch,
            s.track_preference.mismatch_action == MismatchAction::WarnDialog,
            s.position_ms == 0,
            s.duration_ms == 0,
            s.volume_bits == ONE_F64_BITS,
            s.media_url is None,
            s.media_title is None,
    {
        MediaSession::default()
    }

    /// Asks for playback to pause when the new audio track is in a language
    /// that is not preferred and no available track is in a preferred one.
    pub fn evaluate_audio_track_change(&self, new_track: &AudioTrack) -> (r: Option<TrackEvent>)
        ensures
            opt_event_view(r) == match audio_change_reason(
                self.track_preference.pause_on_mismatch,
                views(self.track_preference.preferred_languages@),
                track_languages(self.available_audio_tracks@),
                opt_view(new_track.language),
            ) {
                Some(reason) => Some(TrackEventView::PauseRequested { reason }),
                None => None,
            },
    {
        if !self.track_preference.pause_on_mismatch {
            return None;
        }
        let new_lang = match &new_track.language {
            Some(lang) => lang,
            None => return None,
        };
        let prefs = &self.track_preference.preferred_languages;
        if prefers_exec(prefs, new_lang.as_str()) {
            return None;
        }
        if any_preferred_exec(&self.available_audio_tracks, prefs) {
            return None;
        }
        Some(TrackEvent::PauseRequested { reason: mismatch_reason_exec(new_lang.as_str(), prefs) })
    }
}

/// A language warning for the user: the language playback switched to and
/// the preferred ones.
#[derive(Debug, Clone)]
pub struct MismatchWarning {
    pub language: String,
    pub preferred: String,
}

/// What the player does after an audio track change.
#[derive(Debug, Clone, PartialEq)]
pub enum TrackAction {
    NoAction,
    Pause { reason: String },
    WarnAndPause { reason: String, language: String, preferred: String },
}

/// A track action as values.
pub enum TrackActionView {
    NoAction,
    Pause { reason: Seq<char> },
    WarnAndPause { reason: Seq<char>, language: Seq<char>, preferred: Seq<char> },
}

impl View for TrackAction {
    type V = TrackActionView;

    open spec fn view(&self) -> TrackActionView {
        match self {
            TrackAction::NoAction => TrackActionView::NoAction,
            TrackAction::Pause { reason } => TrackActionView::Pause { reason: reason@ },
            TrackAction::WarnAndPause { reason, language, preferred } => TrackActionView::WarnAndPause {
                reason: reason@,
                language: language@,
                preferred: preferred@,
            },
        }
    }
}

/// The action for a switch to an audio track in `new_lang`: nothing when
/// playback goes on, a pause, or a pause with a warning that names the
/// language ("Unknown" if it has none) and the preferred ones.
pub open spec fn spec_track_action(
    pref_pause: bool,
    prefs: Seq<Seq<char>>,
    action: MismatchAction,
    available: Seq<Option<Seq<char>>>,
    new_lang: Option<Seq<char>>,
) -> TrackActionView {
    match audio_change_reason(pref_pause, prefs, available, new_lang) {
        None => TrackActionView::NoAction,
        Some(reason) => match action {
            MismatchAction::Pause => TrackActionView::Pause { reason },
            MismatchAction::WarnDialog => TrackActionView::WarnAndPause {
                reason,
                language: match new_lang {
                    Some(l) => l,
                    None => "Unknown"@,
                },
                preferred: seq_join(prefs, "/"@),
            },
            MismatchAction::Ignore => TrackActionView::NoAction,
        },
    }
}

/// Records `track` as the current audio track and decides what the player
/// does about it.
pub fn evaluate_track_action(session: &mut MediaSession, track: &AudioTrack) -> (r: TrackAction)
    ensures
        final(session).current_audio_track matches Some(t) && t@ == track@,
        final(session).state == old(session).state,
        final(session).current_subtitle_track == old(session).current_subtitle_track,
        final(session).available_audio_tracks == old(session).available_audio_tracks,
        final(session).available_subtitle_tracks == old(session).available_subtitle_tracks,
        final(session).track_preference == old(session).track_preference,
        final(session).position_ms == old(session).position_ms,
        final(session).duration_ms == old(session).duration_ms,
        final(session).volume_bits == old(session).volume_bits,
        final(session).media_url == old(session).media_url,
        final(session).media_title == old(session).media_title,
        r@ == spec_track_action(
            old(session).track_preference.pause_on_mismatch,
            views(old(session).track_preference.preferred_languages@),
            old(session).track_preference.mismatch_action,
            track_languages(old(session).available_audio_tracks@),
            opt_view(track.language),
        ),
{
    session.current_audio_track = Some(track.duplicate());
    let event = session.evaluate_audio_track_change(track);
    let reason = match event {
        Some(TrackEvent::PauseRequested { reason }) => reason,
        _ => {
            return TrackAction::NoAction;
        },
    };
    match session.track_preference.mismatch_action {
        MismatchAction::Pause => TrackAction::Pause { reason },
        MismatchAction::WarnDialog => {
            let language = match &track.language {
                Some(l) => l.clone(),
                None => owned("Unknown"),
            };
            let preferred = join(&session.track_preference.preferred_languages, "/");
            TrackAction::WarnAndPause { reason, language, preferred }
        },
        MismatchAction::Ignore => TrackAction::NoAction,
    }
}

/// Playback is interrupted only when interruptions are wanted, the new
/// track's language is known and not preferred, and no track on offer is in
/// a preferred language; an action of ignoring never interrupts.
pub proof fn law_interrupts_only_on_unmet_preference(
    pause: bool,
    prefs: Seq<Seq<char>>,
    action: MismatchAction,
    available: Seq<Option<Seq<char>>>,
    new_lang: Option<Seq<char>>,
)
    ensures
        audio_change_reason(pause, prefs, available, new_lang) is Some <==> (pause && new_lang is Some
            && !prefers(prefs, new_lang->0) && !any_preferred(available, prefs)),
        action == MismatchAction::Ignore ==> spec_track_action(pause, prefs, action, available, new_lang) == TrackActionView::NoAction,
        !pause ==> spec_track_action(pause, prefs, action, available, new_lang) == TrackActionView::NoAction,
{
}

/// A preferred language matches in any ASCII case: a track in `ENG` does
/// not interrupt a user who prefers `eng`.
pub proof fn law_preference_ignores_ascii_case(prefs: Seq<Seq<char>>, i: int, lang: Seq<char>)
    requires
        0 <= i < prefs.len(),
        eq_ignore_ascii_case(prefs[i], lang),
    ensures
        forall|available: Seq<Option<Seq<char>>>| #[trigger] audio_change_reason(true, prefs, available, Some(lang)) is None,
{
}

} // verus!
