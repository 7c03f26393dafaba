//! The web client's view of the service: the request and response shapes of
//! the REST API, and the mapping from store tracks to the rows the track
//! pages display. The HTTP calls themselves happen outside.

use vstd::prelude::*;
use crate::models::{spec_track_converted, DatabasePlaylist, DatabaseTrack};
use crate::text::{dec_str_signed, prefix_matches_at, signed_decimal_string};
use crate::youtube_api::{url_encode, url_encoded_of};

verus! {

/// Body of a playlist import request.
#[derive(Debug, Clone, PartialEq, Eq)]
pub struct ImportPlaylistRequest {
    pub url: String,
}

/// Body of a manual track addition request.
#[derive(Debug, Clone, PartialEq, Eq)]
pub struct AddTrackRequest {
    pub track_name: String,
    pub artist_name: String,
}

/// Response to a playlist import.
#[derive(Debug, Clone, PartialEq, Eq)]
pub struct ImportPlaylistResponse {
    pub status: String,
    pub message: String,
    pub playlist_id: Option<String>,
    pub tracks_count: Option<usize>,
}

/// Response to a manual track addition.
#[derive(Debug, Clone, PartialEq, Eq)]
pub struct AddTrackResponse {
    pub status: String,
    pub message: String,
    pub track_id: Option<String>,
}

/// Response listing tracks that still need conversion.
#[derive(Debug, Clone, PartialEq, Eq)]
pub struct TracksForConversionResponse {
    pub status: String,
    pub tracks: Vec<DatabaseTrack>,
    pub count: usize,
}

/// Response to a track search.
#[derive(Debug, Clone, PartialEq, Eq)]
pub struct SearchTracksResponse {
    pub status: String,
    pub query: String,
    pub tracks: Vec<DatabaseTrack>,
    pub count: usize,
}

/// Response listing the stored playlists.
#[derive(Debug, Clone, PartialEq, Eq)]
pub struct PlaylistsResponse {
    pub status: String,
    pub playlists: Vec<DatabasePlaylist>,
    pub count: usize,
}

/// Response listing one playlist's tracks.
#[derive(Debug, Clone, PartialEq, Eq)]
pub struct PlaylistTracksResponse {
    pub status: String,
    pub playlist: DatabasePlaylist,
    pub tracks: Vec<DatabaseTrack>,
    pub count: usize,
}

/// Client handle for the service's REST API.
#[derive(Debug, Clone, PartialEq, Eq)]
pub struct ApiService {
    pub base_url: String,
}

impl ApiService {
    /// A client against the local development server.
    pub fn new() -> (r: ApiService)
        ensures
            r.base_url@ == "http://localhost:3000"@,
    {
        ApiService { base_url: String::from_str("http://localhost:3000") }
    }

    /// The playlist import endpoint.
    pub fn import_playlist_url(&self) -> (r: String)
        ensures
            r@ == self.base_url@ + "/api/playlists/import"@,
    {
        let mut url: String = self.base_url.clone();
        url.append("/api/playlists/import");
        url
    }

    /// The manual track addition endpoint.
    pub fn add_track_url(&self) -> (r: String)
        ensures
            r@ == self.base_url@ + "/api/tracks/add"@,
    {
        let mut url: String = self.base_url.clone();
        url.append("/api/tracks/add");
        url
    }

    /// The conversion statistics endpoint.
    pub fn conversion_stats_url(&self) -> (r: String)
        ensures
            r@ == self.base_url@ + "/api/conversion/stats"@,
    {
        let mut url: String = self.base_url.clone();
        url.append("/api/conversion/stats");
        url
    }

    /// The paged listing of tracks that still need conversion.
    pub fn tracks_for_conversion_url(&self, limit: i64, offset: i64) -> (r: String)
        ensures
            r@ == self.base_url@ + "/api/tracks/for-conversion?limit="@ + dec_str_signed(
                limit as int,
            ) + "&offset="@ + dec_str_signed(offset as int),
    {
        let mut url: String = self.base_url.clone();
        url.append("/api/tracks/for-conversion?limit=");
        let limit_digits: String = signed_decimal_string(limit);
        url.append(limit_digits.as_str());
        url.append("&offset=");
        let offset_digits: String = signed_decimal_string(offset);
        url.append(offset_digits.as_str());
        proof {
            assert(url@ =~= self.base_url@ + "/api/tracks/for-conversion?limit="@
                + dec_str_signed(limit as int) + "&offset="@ + dec_str_signed(offset as int));
        }
        url
    }

    /// The track search endpoint, with the query percent-encoded.
    pub fn search_tracks_url(&self, query: &str, limit: i64) -> (r: String)
        ensures
            r@ == self.base_url@ + "/api/tracks/search?q="@ + url_encoded_of(query@)
                + "&limit="@ + dec_str_signed(limit as int),
    {
        let mut url: String = self.base_url.clone();
        url.append("/api/tracks/search?q=");
        let encoded: String = url_encode(query);
        url.append(encoded.as_str());
        url.append("&limit=");
        let limit_digits: String = signed_decimal_string(limit);
        url.append(limit_digits.as_str());
        proof {
            assert(url@ =~= self.base_url@ + "/api/tracks/search?q="@ + url_encoded_of(query@)
                + "&limit="@ + dec_str_signed(limit as int));
        }
        url
    }

    /// The paged playlist listing.
    pub fn playlists_url(&self, limit: i64, offset: i64) -> (r: String)
        ensures
            r@ == self.base_url@ + "/api/playlists?limit="@ + dec_str_signed(limit as int)
                + "&offset="@ + dec_str_signed(offset as int),
    {
        let mut url: String = self.base_url.clone();
        url.append("/api/playlists?limit=");
        let limit_digits: String = signed_decimal_string(limit);
        url.append(limit_digits.as_str());
        url.append("&offset=");
        let offset_digits: String = signed_decimal_string(offset);
        url.append(offset_digits.as_str());
        proof {
            assert(url@ =~= self.base_url@ + "/api/playlists?limit="@ + dec_str_signed(
                limit as int,
            ) + "&offset="@ + dec_str_signed(offset as int));
        }
        url
    }

    /// The paged listing of one playlist's tracks.
    pub fn playlist_tracks_url(&self, playlist_id: &str, limit: i64, offset: i64) -> (r: String)
        ensures
            r@ == self.base_url@ + "/api/playlists/"@ + playlist_id@ + "/tracks?limit="@
                + dec_str_signed(limit as int) + "&offset="@ + dec_str_signed(offset as int),
    {
        let mut url: String = self.base_url.clone();
        url.append("/api/playlists/");
        url.append(playlist_id);
        url.append("/tracks?limit=");
        let limit_digits: String = signed_decimal_string(limit);
        url.append(limit_digits.as_str());
        url.append("&offset=");
        let offset_digits: String = signed_decimal_string(offset);
        url.append(offset_digits.as_str());
        proof {
            assert(url@ =~= self.base_url@ + "/api/playlists/"@ + playlist_id@
                + "/tracks?limit="@ + dec_str_signed(limit as int) + "&offset="@
                + dec_str_signed(offset as int));
        }
        url
    }

    /// The endpoint that records a track's video URL.
    pub fn track_youtube_url_endpoint(&self, track_id: &str) -> (r: String)
        ensures
            r@ == self.base_url@ + "/api/tracks/"@ + track_id@ + "/youtube-url"@,
    {
        let mut url: String = self.base_url.clone();
        url.append("/api/tracks/");
        url.append(track_id);
        url.append("/youtube-url");
        proof {
            assert(url@ =~= self.base_url@ + "/api/tracks/"@ + track_id@ + "/youtube-url"@);
        }
        url
    }
}

/// Where a displayed track stands in the conversion pipeline.
#[derive(Debug, Clone, PartialEq, Eq, Structural)]
pub enum TrackStatus {
    Pending,
    Found,
    NotFound,
    Converted,
}

impl TrackStatus {
    /// The label the track pages print for this status.
    pub fn label(&self) -> (r: String)
        ensures
            *self == TrackStatus::Pending ==> r@ == "Pending"@,
            *self == TrackStatus::Found ==> r@ == "Found"@,
            *self == TrackStatus::NotFound ==> r@ == "Not Found"@,
            *self == TrackStatus::Converted ==> r@ == "Converted"@,
    {
        match self {
            TrackStatus::Pending => String::from_str("Pending"),
            TrackStatus::Found => String::from_str("Found"),
            TrackStatus::NotFound => String::from_str("Not Found"),
            TrackStatus::Converted => String::from_str("Converted"),
        }
    }
}

/// One row of the track pages.
#[derive(Debug, Clone, PartialEq, Eq)]
pub struct Track {
    pub id: String,
    pub name: String,
    pub artist: String,
    pub spotify_url: Option<String>,
    pub youtube_url: Option<String>,
    pub status: TrackStatus,
}

/// The public track page link for a store track: the catalog URI's id part
/// when the URI has the `spotify:track:` form, the store id otherwise.
pub open spec fn spec_spotify_track_url(uri: Seq<char>, id: Seq<char>) -> Seq<char> {
    "https://open.spotify.com/track/"@ + (if uri.len() >= 14 && uri.subrange(0, 14)
        == "spotify:track:"@ {
        uri.subrange(14, uri.len() as int)
    } else {
        id
    })
}

/// Maps a store track to a display row: converted exactly when a non-empty
/// video URL is recorded, with a public track page link when a catalog URI
/// exists.
pub fn database_track_to_track(db_track: &DatabaseTrack) -> (t: Track)
    ensures
        t.id == db_track.id,
        t.name == db_track.name,
        t.artist@ == "Various Artists"@,
        t.youtube_url == db_track.youtube_url,
        (t.status == TrackStatus::Converted) == spec_track_converted(*db_track),
        (t.status == TrackStatus::Found) == !spec_track_converted(*db_track),
        db_track.spotify_uri@.len() == 0 ==> t.spotify_url is None,
        db_track.spotify_uri@.len() > 0 ==> (t.spotify_url matches Some(u) && u@
            == spec_spotify_track_url(db_track.spotify_uri@, db_track.id@)),
{
    proof {
        reveal_strlit("spotify:track:");
    }
    let status: TrackStatus = if db_track.is_converted() {
        TrackStatus::Converted
    } else {
        TrackStatus::Found
    };
    let spotify_url: Option<String> = if !db_track.spotify_uri.as_str().is_empty() {
        let mut link: String = String::from_str("https://open.spotify.com/track/");
        let uri: &str = db_track.spotify_uri.as_str();
        if prefix_matches_at(uri, 0, "spotify:track:") {
            let uri_len: usize = uri.unicode_len();
            let tail: &str = uri.substring_char(14, uri_len);
            link.append(tail);
        } else {
            link.append(db_track.id.as_str());
        }
        proof {
            assert(link@ =~= spec_spotify_track_url(db_track.spotify_uri@, db_track.id@));
        }
        Some(link)
    } else {
        None
    };
    Track {
        id: db_track.id.clone(),
        name: db_track.name.clone(),
        artist: String::from_str("Various Artists"),
        spotify_url,
        youtube_url: clone_option_string(&db_track.youtube_url),
        status,
    }
}

fn clone_option_string(v: &Option<String>) -> (r: Option<String>)
    ensures
        r == *v,
{
    match v {
        Some(s) => Some(s.clone()),
        None => None,
    }
}

} // verus!
