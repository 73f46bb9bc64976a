//! Playlists.
use vstd::prelude::*;

verus! {

/// Why a playlist request failed.
#[derive(Debug)]
pub enum PlaylistError {
    Http(String),
}

/// A playlist.
#[derive(Debug, Clone)]
pub struct Playlist {
    pub rating_key: String,
    pub key: String,
    pub title: String,
    pub playlist_type: Option<String>,
    pub summary: Option<String>,
    pub thumb: Option<String>,
    pub leaf_count: Option<u32>,
    pub duration: Option<u64>,
    pub added_at: Option<u64>,
    pub updated_at: Option<u64>,
}

} // verus!
