//! A personal music library: songs fetched from a remote source, playlists
//! over them, and playback through a daemon that owns the queue.
//!
//! The library decides; it never performs. Every command is a deterministic
//! function of the answers that the three collaborators (the catalog, the
//! media cache and the playback daemon) have given so far: handed those
//! answers, it either names the next request to carry out or reports how the
//! command ended. The caller carries the request out, appends the answer and
//! asks again.
//!
//! `dispatch::advance` is that function. `handler` holds the commands,
//! `database`, `youtube_api` and `mpd_client` what is said to each of the
//! collaborators, and `protocol` the words it is said in. `world` describes
//! the collaborators as the commands take them to be, and `laws` proves what
//! the commands achieve in such a world.

pub mod args;
pub mod config;
pub mod database;
pub mod dispatch;
pub mod error;
pub mod handler;
pub mod laws;
pub mod models;
pub mod mpd_client;
pub mod protocol;
pub mod text;
pub mod world;
pub mod youtube_api;
