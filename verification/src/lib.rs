use vstd::prelude::*;

pub mod text;
pub mod player_state;
pub mod web;
pub mod query;
pub mod deep_links;
pub mod models;
pub mod discovery;
pub mod config;
pub mod media;
pub mod keychain;
pub mod library;
pub mod sort;
pub mod hubs;
pub mod transcode;
pub mod playback;
pub mod auth;
pub mod cache;
pub mod ui;
pub mod player_logic;
pub mod display;
pub mod instance;
pub mod search;
pub mod users;
pub mod playlists;
pub mod api;
pub mod subtitles;
pub mod tracks;
pub mod mini_player;
pub mod detail;
pub mod settings;
pub mod player_session;
pub mod identity;
pub mod sidebar;
pub mod library_view;
pub mod login;

verus! {

} // verus!
