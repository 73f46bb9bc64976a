//! The subtitle tracks of the playing media, as the player's menus list
//! them, and the index that turns subtitles off.
use vstd::prelude::*;

verus! {

/// The subtitle track index that means "no subtitles".
pub const SUBTITLES_OFF: i32 = -1;

/// A subtitle track as the menus show it.
#[derive(Debug, Clone)]
pub struct SubtitleInfo {
    pub index: i32,
    pub language: Option<String>,
    pub title: Option<String>,
}

/// Lists and picks subtitle tracks through the pipeline's queries.
pub struct SubtitleManager;

impl SubtitleManager {
    /// The tracks `0..count`, each with the language and title the pipeline
    /// reports for it (`describe` asks the pipeline about one index).
    pub fn list_tracks<F: Fn(i32) -> (Option<String>, Option<String>)>(count: i32, describe: F) -> (r: Vec<SubtitleInfo>)
        requires
            forall|i: i32| 0 <= i < count ==> call_requires(describe, (i,)),
        ensures
            r@.len() == if count > 0 { count as nat } else { 0 },
            forall|i: int| 0 <= i < r@.len() ==> #[trigger] r@[i].index == i
                && call_ensures(describe, (i as i32,), (r@[i].language, r@[i].title)),
    {
        let mut tracks: Vec<SubtitleInfo> = Vec::new();
        let mut i: i32 = 0;
        while i < count
            invariant
                0 <= i,
                count > 0 ==> i <= count,
                count <= 0 ==> i == 0,
                tracks@.len() == i as nat,
                forall|j: i32| 0 <= j < count ==> call_requires(describe, (j,)),
                forall|k: int| 0 <= k < tracks@.len() ==> #[trigger] tracks@[k].index == k
                    && call_ensures(describe, (k as i32,), (tracks@[k].language, tracks@[k].title)),
            decreases count - i,
        {
            let (language, title) = describe(i);
            tracks.push(SubtitleInfo { index: i, language, title });
            i += 1;
        }
        tracks
    }

    /// Shows track `index`: the pipeline's setter is called with it, and
    /// what the setter gives back is returned.
    pub fn select_track<R, F: FnOnce(i32) -> R>(set_track: F, index: i32) -> (r: R)
        requires
            call_requires(set_track, (index,)),
        ensures
            call_ensures(set_track, (index,), r),
    {
        set_track(index)
    }

    /// Turns subtitles off: the pipeline's setter is called with the index
    /// that means no subtitles.
    pub fn disable<R, F: FnOnce(i32) -> R>(set_track: F) -> (r: R)
        requires
            call_requires(set_track, (SUBTITLES_OFF,)),
        ensures
            call_ensures(set_track, (SUBTITLES_OFF,), r),
    {
        set_track(SUBTITLES_OFF)
    }
}

} // verus!
