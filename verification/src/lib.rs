//! Core logic of a Spotify-playlist-to-YouTube bridge service.
//!
//! The library owns the decision logic of the service: the OAuth token
//! lifecycle (expiry tracking, refresh application, refresh scheduling), the
//! best-effort selection of a YouTube video for a known track (scoring of
//! search candidates), and the conversion workflow around it (query building,
//! skip-if-converted, batch accounting, deterministic mock search ids).
//! Network and database plumbing stay outside and hand the library plain
//! values.

pub mod api;
pub mod conversion;
pub mod matching;
pub mod models;
pub mod music;
pub mod spotify_api;
pub mod spotify_model;
pub mod text;
pub mod youtube_api;
