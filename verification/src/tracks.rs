//! How the player picks streams: how many tracks there are, which streams a
//! track switch asks for, and which audio track the preferred languages
//! choose. The pipeline reports and applies; these decide.
use vstd::prelude::*;
use crate::text::{eq_ignore_ascii_case, eq_ignore_ascii_case_str, opt_view, views};

verus! {

broadcast use vstd::string::group_string_axioms;

/// The number of audio tracks: the pipeline's count when it has one, else
/// the streams seen so far, else one while playing (a stream that plays has
/// sound), else none.
pub open spec fn spec_audio_track_count(n_audio: Option<i32>, cached_streams: usize, playing: bool) -> i32 {
    match n_audio {
        Some(n) if n > 0 => n,
        _ => if cached_streams > 0 {
            cached_streams as i32
        } else if playing {
            1
        } else {
            0
        },
    }
}

/// The number of audio tracks.
pub fn audio_track_count(n_audio: Option<i32>, cached_streams: usize, playing: bool) -> (r: i32)
    requires
        cached_streams <= i32::MAX,
    ensures
        r == spec_audio_track_count(n_audio, cached_streams, playing),
{
    match n_audio {
        Some(n) if n > 0 => n,
        _ => if cached_streams > 0 {
            cached_streams as i32
        } else if playing {
            1
        } else {
            0
        },
    }
}

/// The number of subtitle tracks: the pipeline's count when it has one,
/// else the streams seen so far.
pub open spec fn spec_subtitle_track_count(n_text: Option<i32>, cached_streams: usize) -> i32 {
    match n_text {
        Some(n) if n > 0 => n,
        _ => cached_streams as i32,
    }
}

/// The number of subtitle tracks.
pub fn subtitle_track_count(n_text: Option<i32>, cached_streams: usize) -> (r: i32)
    requires
        cached_streams <= i32::MAX,
    ensures
        r == spec_subtitle_track_count(n_text, cached_streams),
{
    match n_text {
        Some(n) if n > 0 => n,
        _ => cached_streams as i32,
    }
}

/// The id of the stream at `i`, when there is one and it has an id.
pub open spec fn id_at(streams: Seq<Option<Seq<char>>>, i: int) -> Seq<Seq<char>> {
    if 0 <= i < streams.len() {
        match streams[i] {
            Some(id) => seq![id],
            None => Seq::empty(),
        }
    } else {
        Seq::empty()
    }
}

/// The stream ids of a list of streams (`None` for a stream without one).
pub open spec fn stream_ids(v: Seq<Option<String>>) -> Seq<Option<Seq<char>>> {
    v.map_values(|o: Option<String>| opt_view(o))
}

/// The streams asked for when switching to audio track `audio_idx`: the
/// first video stream, that audio stream, and the subtitle stream shown now
/// (`current_text`, negative for none). Nothing is asked when there is
/// neither audio nor video.
pub open spec fn spec_streams_for_audio(
    video: Seq<Option<Seq<char>>>,
    audio: Seq<Option<Seq<char>>>,
    text: Seq<Option<Seq<char>>>,
    audio_idx: int,
    current_text: int,
) -> Seq<Seq<char>> {
    if audio.len() == 0 && video.len() == 0 {
        Seq::empty()
    } else {
        id_at(video, 0) + id_at(audio, audio_idx) + (if current_text >= 0 { id_at(text, current_text) } else { Seq::empty() })
    }
}

/// The streams asked for when switching subtitles to `text_idx` (`None` to
/// turn them off): the first video stream, the audio stream `audio_idx` that
/// played before the switch, and the subtitle stream.
pub open spec fn spec_streams_for_text(
    video: Seq<Option<Seq<char>>>,
    audio: Seq<Option<Seq<char>>>,
    text: Seq<Option<Seq<char>>>,
    text_idx: Option<int>,
    audio_idx: int,
) -> Seq<Seq<char>> {
    if audio.len() == 0 && video.len() == 0 {
        Seq::empty()
    } else {
        id_at(video, 0) + id_at(audio, audio_idx) + match text_idx {
            Some(t) => id_at(text, t),
            None => Seq::empty(),
        }
    }
}

fn push_id_at(out: &mut Vec<String>, streams: &Vec<Option<String>>, i: usize)
    ensures
        views(final(out)@) == views(old(out)@) + id_at(stream_ids(streams@), i as int),
{
    let ghost before = views(out@);
    if i < streams.len() {
        match &streams[i] {
            Some(id) => {
                out.push(id.clone());
                assert(views(out@) == before.push(id@));
                assert(id_at(stream_ids(streams@), i as int) == seq![id@]);
            },
            None => {
                assert(id_at(stream_ids(streams@), i as int) == Seq::<Seq<char>>::empty());
                assert(views(out@) == before + Seq::<Seq<char>>::empty());
            },
        }
    } else {
        assert(views(out@) == before + Seq::<Seq<char>>::empty());
    }
}

/// The streams asked for when switching audio tracks.
pub fn streams_for_audio(
    video: &Vec<Option<String>>,
    audio: &Vec<Option<String>>,
    text: &Vec<Option<String>>,
    audio_idx: usize,
    current_text: i32,
) -> (r: Vec<String>)
    ensures
        views(r@) == spec_streams_for_audio(stream_ids(video@), stream_ids(audio@), stream_ids(text@), audio_idx as int, current_text as int),
{
    let mut ids: Vec<String> = Vec::new();
    if audio.len() == 0 && video.len() == 0 {
        assert(views(ids@) == Seq::<Seq<char>>::empty());
        return ids;
    }
    assert(views(ids@) == Seq::<Seq<char>>::empty());
    push_id_at(&mut ids, video, 0);
    push_id_at(&mut ids, audio, audio_idx);
    if current_text >= 0 {
        push_id_at(&mut ids, text, current_text as usize);
    } else {
        assert(views(ids@) == views(ids@) + Seq::<Seq<char>>::empty());
    }
    ids
}

/// The streams asked for when switching subtitles.
pub fn streams_for_text(
    video: &Vec<Option<String>>,
    audio: &Vec<Option<String>>,
    text: &Vec<Option<String>>,
    text_idx: Option<usize>,
    audio_idx: usize,
) -> (r: Vec<String>)
    ensures
        views(r@) == spec_streams_for_text(
            stream_ids(video@),
            stream_ids(audio@),
            stream_ids(text@),
            match text_idx {
                Some(t) => Some(t as int),
                None => None,
            },
            audio_idx as int,
        ),
{
    let mut ids: Vec<String> = Vec::new();
    if audio.len() == 0 && video.len() == 0 {
        assert(views(ids@) == Seq::<Seq<char>>::empty());
        return ids;
    }
    assert(views(ids@) == Seq::<Seq<char>>::empty());
    push_id_at(&mut ids, video, 0);
    push_id_at(&mut ids, audio, audio_idx);
    match text_idx {
        Some(t) => push_id_at(&mut ids, text, t),
        None => {
            assert(views(ids@) == views(ids@) + Seq::<Seq<char>>::empty());
        },
    }
    ids
}

/// The first audio track, from `k` on, whose language is `lang` up to ASCII case.
pub open spec fn first_in_language(langs: Seq<Option<Seq<char>>>, lang: Seq<char>, k: int) -> Option<int>
    decreases langs.len() - k,
{
    if k < 0 || k >= langs.len() {
        None
    } else if langs[k] matches Some(l) && eq_ignore_ascii_case(lang, l) {
        Some(k)
    } else {
        first_in_language(langs, lang, k + 1)
    }
}

/// The audio track the preferred languages choose: for the first preferred
/// language that some track has, the first such track.
pub open spec fn preferred_track_from(prefs: Seq<Seq<char>>, langs: Seq<Option<Seq<char>>>, p: int) -> Option<int>
    decreases prefs.len() - p,
{
    if p < 0 || p >= prefs.len() {
        None
    } else {
        match first_in_language(langs, prefs[p], 0) {
            Some(i) => Some(i),
            None => preferred_track_from(prefs, langs, p + 1),
        }
    }
}

/// The audio track to switch to: the one the preferred languages choose,
/// unless it plays already.
pub open spec fn spec_preferred_audio_track(prefs: Seq<Seq<char>>, langs: Seq<Option<Seq<char>>>, current: i32) -> Option<i32> {
    match preferred_track_from(prefs, langs, 0) {
        Some(i) => if i == current { None } else { Some(i as i32) },
        None => None,
    }
}

proof fn lemma_first_in_language_bounds(langs: Seq<Option<Seq<char>>>, lang: Seq<char>, k: int)
    ensures
        first_in_language(langs, lang, k) matches Some(i) ==> k <= i < langs.len(),
    decreases langs.len() - k,
{
    if 0 <= k < langs.len() {
        lemma_first_in_language_bounds(langs, lang, k + 1);
    }
}

proof fn lemma_preferred_track_bounds(prefs: Seq<Seq<char>>, langs: Seq<Option<Seq<char>>>, p: int)
    ensures
        preferred_track_from(prefs, langs, p) matches Some(i) ==> 0 <= i < langs.len(),
    decreases prefs.len() - p,
{
    if 0 <= p < prefs.len() {
        lemma_first_in_language_bounds(langs, prefs[p], 0);
        lemma_preferred_track_bounds(prefs, langs, p + 1);
    }
}

/// The audio track to switch to, if any, given the preferred languages, the
/// languages of the audio tracks (`None` where unknown) and the track playing.
pub fn preferred_audio_track(preferred: &Vec<String>, languages: &Vec<Option<String>>, current: i32) -> (r: Option<i32>)
    requires
        languages@.len() <= i32::MAX,
    ensures
        r == spec_preferred_audio_track(views(preferred@), stream_ids(languages@), current),
{
    let ghost prefs = views(preferred@);
    let ghost langs = stream_ids(languages@);
    proof {
        lemma_preferred_track_bounds(prefs, langs, 0);
    }
    let mut p: usize = 0;
    while p < preferred.len()
        invariant
            prefs == views(preferred@),
            langs == stream_ids(languages@),
            languages@.len() <= i32::MAX,
            p <= preferred.len(),
            preferred_track_from(prefs, langs, 0) == preferred_track_from(prefs, langs, p as int),
        decreases preferred.len() - p,
    {
        assert(prefs[p as int] == preferred@[p as int]@);
        let mut i: usize = 0;
        while i < languages.len()
            invariant
                prefs == views(preferred@),
                langs == stream_ids(languages@),
                languages@.len() <= i32::MAX,
                p < preferred.len(),
                i <= languages.len(),
                first_in_language(langs, prefs[p as int], 0) == first_in_language(langs, prefs[p as int], i as int),
                preferred_track_from(prefs, langs, 0) == preferred_track_from(prefs, langs, p as int),
            decreases languages.len() - i,
        {
            assert(langs[i as int] == opt_view(languages@[i as int]));
            match &languages[i] {
                Some(lang) => {
                    if eq_ignore_ascii_case_str(preferred[p].as_str(), lang.as_str()) {
                        let target = i as i32;
                        if current == target {
                            return None;
                        }
                        return Some(target);
                    }
                },
                None => {},
            }
            i += 1;
        }
        p += 1;
    }
    None
}

} // verus!
