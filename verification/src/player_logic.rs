//! The player's decisions that need no player: the episode lines, which
//! marker the position is in, and what a settings change does.
use vstd::prelude::*;
use crate::config::MismatchAction;
use crate::library::Marker;
use crate::media::MediaSession;
use crate::text::{copy_strings, decimal, decimal_string, owned, str_eq, views};

verus! {

broadcast use vstd::string::group_string_axioms;

/// `S<season> · E<episode>`.
pub open spec fn season_episode(si: u32, ei: u32) -> Seq<char> {
    "S"@ + decimal(si as nat) + " \u{00b7} E"@ + decimal(ei as nat)
}

fn season_episode_exec(si: u32, ei: u32) -> (r: String)
    ensures
        r@ == season_episode(si, ei),
{
    let mut r = owned("S");
    let s = decimal_string(si as u64);
    r.append(s.as_str());
    r.append(" \u{00b7} E");
    let e = decimal_string(ei as u64);
    r.append(e.as_str());
    r
}

/// The episode line under the player's title: empty unless the item is an
/// episode (it has a show); then `S<n> · E<n> — <title>`, or only the title
/// when a number is missing.
pub open spec fn spec_episode_line(grandparent_title: Option<Seq<char>>, parent_index: Option<u32>, index: Option<u32>, title: Seq<char>) -> Seq<char> {
    match grandparent_title {
        None => Seq::empty(),
        Some(_) => match (parent_index, index) {
            (Some(si), Some(ei)) => season_episode(si, ei) + " \u{2014} "@ + title,
            _ => title,
        },
    }
}

/// The episode line under the player's title.
pub fn format_episode_line(grandparent_title: Option<&str>, parent_index: Option<u32>, index: Option<u32>, title: &str) -> (r: String)
    ensures
        r@ == spec_episode_line(
            match grandparent_title {
                Some(g) => Some(g@),
                None => None,
            },
            parent_index,
            index,
            title@,
        ),
{
    if grandparent_title.is_none() {
        return String::new();
    }
    match (parent_index, index) {
        (Some(si), Some(ei)) => {
            let mut ep = season_episode_exec(si, ei);
            ep.append(" \u{2014} ");
            ep.append(title);
            ep
        },
        _ => owned(title),
    }
}

/// The subtitle of the up-next card: `S<n> · E<n>`, or empty.
pub open spec fn spec_up_next_subtitle(parent_index: Option<u32>, index: Option<u32>) -> Seq<char> {
    match (parent_index, index) {
        (Some(si), Some(ei)) => season_episode(si, ei),
        _ => Seq::empty(),
    }
}

/// The subtitle of the up-next card.
pub fn format_up_next_subtitle(parent_index: Option<u32>, index: Option<u32>) -> (r: String)
    ensures
        r@ == spec_up_next_subtitle(parent_index, index),
{
    match (parent_index, index) {
        (Some(si), Some(ei)) => season_episode_exec(si, ei),
        _ => String::new(),
    }
}

/// The marked span the position is in, with where a skip lands (the span's
/// end, in milliseconds).
#[derive(Debug, Clone, Copy, PartialEq, Eq, Structural)]
pub enum ActiveMarker {
    Intro { skip_to_ms: u64 },
    Credits { skip_to_ms: u64 },
}

/// A marker of type `t` whose span holds `pos`.
pub open spec fn marker_holds(m: Marker, pos: u64, t: Seq<char>) -> bool {
    &&& m.start_time_offset matches Some(s)
    &&& m.end_time_offset matches Some(e)
    &&& s <= pos < e
    &&& m.marker_type matches Some(mt)
    &&& mt@ == t
}

/// The marker that decides at `pos`, from position `k` on: the first intro
/// or credits marker whose span holds the position.
pub open spec fn active_from(ms: Seq<Marker>, pos: u64, k: int) -> Option<ActiveMarker>
    decreases ms.len() - k,
{
    if k < 0 || k >= ms.len() {
        None
    } else if marker_holds(ms[k], pos, "intro"@) {
        Some(ActiveMarker::Intro { skip_to_ms: ms[k].end_time_offset->0 })
    } else if marker_holds(ms[k], pos, "credits"@) {
        Some(ActiveMarker::Credits { skip_to_ms: ms[k].end_time_offset->0 })
    } else {
        active_from(ms, pos, k + 1)
    }
}

/// The intro or credits span the position is in, if any.
pub fn active_marker(markers: &[Marker], position_ms: u64) -> (r: Option<ActiveMarker>)
    ensures
        r == active_from(markers@, position_ms, 0),
{
    let mut i: usize = 0;
    while i < markers.len()
        invariant
            i <= markers.len(),
            active_from(markers@, position_ms, 0) == active_from(markers@, position_ms, i as int),
        decreases markers.len() - i,
    {
        let m = &markers[i];
        match (m.start_time_offset, m.end_time_offset) {
            (Some(start), Some(end)) => {
                if position_ms >= start && position_ms < end {
                    match &m.marker_type {
                        Some(t) => {
                            if str_eq(t.as_str(), "intro") {
                                return Some(ActiveMarker::Intro { skip_to_ms: end });
                            }
                            if str_eq(t.as_str(), "credits") {
                                return Some(ActiveMarker::Credits { skip_to_ms: end });
                            }
                        },
                        None => {},
                    }
                }
            },
            _ => {},
        }
        i += 1;
    }
    None
}

/// A change made in the settings while playing.
#[derive(Debug, Clone)]
pub enum SettingsEvent {
    AudioLanguagesChanged(Vec<String>),
    AudioMismatchActionChanged(MismatchAction),
}

/// What the pipeline is told after a settings change.
#[derive(Debug, PartialEq)]
pub enum PipelineUpdate {
    /// Nothing.
    Unchanged,
    /// Prefer these audio languages, and drop the override the user chose
    /// for this session.
    PreferLanguages(Vec<String>),
}

/// The audio-language settings a pipeline holds: the languages it prefers,
/// and whether the user picked a track by hand for this session.
#[derive(Debug)]
pub struct PipelineAudioSettings {
    pub preferred_languages: Vec<String>,
    pub session_audio_override: bool,
}

impl PipelineAudioSettings {
    /// The user picks an audio track by hand: its language, when known,
    /// becomes the only preferred one, and the choice holds for the session.
    pub fn choose_audio_track(&mut self, language: Option<String>)
        ensures
            match language {
                Some(l) => final(self).preferred_languages@ == seq![l],
                None => final(self).preferred_languages == old(self).preferred_languages,
            },
            final(self).session_audio_override,
    {
        match language {
            Some(l) => {
                self.preferred_languages = vec![l];
            },
            None => {},
        }
        self.session_audio_override = true;
    }

    /// Applies what a settings change tells the pipeline: new languages
    /// replace the preferred ones and end the session's override.
    pub fn apply(&mut self, update: PipelineUpdate)
        ensures
            match update {
                PipelineUpdate::Unchanged => *final(self) == *old(self),
                PipelineUpdate::PreferLanguages(l) => {
                    &&& final(self).preferred_languages == l
                    &&& !final(self).session_audio_override
                },
            },
    {
        match update {
            PipelineUpdate::Unchanged => {},
            PipelineUpdate::PreferLanguages(l) => {
                self.preferred_languages = l;
                self.session_audio_override = false;
            },
        }
    }
}

/// Applies a settings change to the session and says what the pipeline is
/// told: new languages replace the preferred ones (and the pipeline gets
/// them); a new mismatch action is recorded, with interruptions wanted
/// unless it is to ignore the mismatch.
pub fn handle_settings_event(session: &mut MediaSession, event: SettingsEvent) -> (r: PipelineUpdate)
    ensures
        final(session).state == old(session).state,
        final(session).current_audio_track == old(session).current_audio_track,
        final(session).available_audio_tracks == old(session).available_audio_tracks,
        final(session).current_subtitle_track == old(session).current_subtitle_track,
        final(session).available_subtitle_tracks == old(session).available_subtitle_tracks,
        final(session).position_ms == old(session).position_ms,
        final(session).duration_ms == old(session).duration_ms,
        final(session).volume_bits == old(session).volume_bits,
        final(session).media_url == old(session).media_url,
        final(session).media_title == old(session).media_title,
        match event {
            SettingsEvent::AudioLanguagesChanged(langs) => {
                &&& r matches PipelineUpdate::PreferLanguages(l) && views(l@) == views(langs@)
                &&& views(final(session).track_preference.preferred_languages@) == views(langs@)
                &&& final(session).track_preference.mismatch_action == old(session).track_preference.mismatch_action
                &&& final(session).track_preference.pause_on_mismatch == old(session).track_preference.pause_on_mismatch
            },
            SettingsEvent::AudioMismatchActionChanged(action) => {
                &&& r is Unchanged
                &&& final(session).track_preference.preferred_languages == old(session).track_preference.preferred_languages
                &&& final(session).track_preference.mismatch_action == action
                &&& final(session).track_preference.pause_on_mismatch == (action != MismatchAction::Ignore)
            },
        },
{
    match event {
        SettingsEvent::AudioLanguagesChanged(langs) => {
            let for_pipeline = copy_strings(&langs);
            session.track_preference.preferred_languages = langs;
            PipelineUpdate::PreferLanguages(for_pipeline)
        },
        SettingsEvent::AudioMismatchActionChanged(action) => {
            let pause = match action {
                MismatchAction::Pause => true,
                MismatchAction::WarnDialog => true,
                MismatchAction::Ignore => false,
            };
            session.track_preference.mismatch_action = action;
            session.track_preference.pause_on_mismatch = pause;
            PipelineUpdate::Unchanged
        },
    }
}

} // verus!
