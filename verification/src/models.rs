//! Records exchanged with the track store, and the derived statistics
//! snapshots.

use vstd::prelude::*;

verus! {

/// An artist as stored in and returned by the track store.
#[derive(Debug, Clone, PartialEq, Eq)]
pub struct DatabaseArtist {
    pub id: String,
    pub name: String,
    pub spotify_uri: String,
    pub external_urls: String,
}

/// A track as stored in and returned by the track store. `youtube_url` is the
/// one field the conversion workflow writes; the rest are read-only inputs.
#[derive(Debug, Clone, PartialEq, Eq)]
pub struct DatabaseTrack {
    pub id: String,
    pub name: String,
    pub spotify_uri: String,
    pub duration_ms: u32,
    pub explicit: bool,
    pub popularity: u32,
    pub preview_url: Option<String>,
    pub external_urls: String,
    pub youtube_url: Option<String>,
    pub isrc: Option<String>,
}

/// A playlist record of the track store.
#[derive(Debug, Clone, PartialEq, Eq)]
pub struct DatabasePlaylist {
    pub id: String,
    pub name: String,
    pub description: Option<String>,
    pub spotify_uri: String,
    pub owner_id: String,
    pub owner_display_name: String,
    pub public: bool,
    pub collaborative: bool,
    pub snapshot_id: String,
    pub total_tracks: u32,
}

/// An album record of the track store.
#[derive(Debug, Clone, PartialEq, Eq)]
pub struct DatabaseAlbum {
    pub id: String,
    pub name: String,
    pub spotify_uri: String,
    pub album_type: String,
    pub release_date: String,
    pub total_tracks: u32,
}

/// A track counts as converted exactly when it carries a non-empty video URL.
pub open spec fn spec_track_converted(t: DatabaseTrack) -> bool {
    t.youtube_url matches Some(u) && u@.len() > 0
}

impl DatabaseTrack {
    /// Whether this track already has a usable video URL.
    pub fn is_converted(&self) -> (r: bool)
        ensures
            r == spec_track_converted(*self),
    {
        match &self.youtube_url {
            Some(u) => u.as_str().unicode_len() > 0,
            None => false,
        }
    }
}

/// Snapshot of how far conversion has come, derived from store counts.
#[derive(Debug, Clone, PartialEq, Eq)]
pub struct ConversionStats {
    pub total_tracks: u64,
    pub converted_tracks: u64,
    pub pending_conversion: u64,
}

impl ConversionStats {
    /// Packs the three counts the track store reports into one snapshot.
    pub fn new(total_tracks: u64, converted_tracks: u64, pending_conversion: u64) -> (r:
        ConversionStats)
        ensures
            r.total_tracks == total_tracks,
            r.converted_tracks == converted_tracks,
            r.pending_conversion == pending_conversion,
    {
        ConversionStats { total_tracks, converted_tracks, pending_conversion }
    }
}

/// Aggregate counts over the whole music database.
#[derive(Debug, Clone, PartialEq, Eq)]
pub struct MusicDatabaseStats {
    pub total_tracks: u64,
    pub total_artists: u64,
    pub total_playlists: u64,
    pub total_albums: u64,
    pub tracks_with_youtube_urls: u64,
}

} // verus!
