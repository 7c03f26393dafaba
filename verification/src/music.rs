//! Mappings from the catalog's records to the track store's records. The
//! store keeps external URLs as the JSON text the catalog object serializes
//! to; that one-field object is encoded here, with full string escaping.

use vstd::prelude::*;
use crate::models::{DatabaseAlbum, DatabaseArtist, DatabaseTrack};
use crate::spotify_model::{SpotifyAlbum, SpotifyArtist, SpotifyExternalUrls, SpotifyTrack};
use crate::text::{chars_to_string, json_escaped, push_json_escaped};

verus! {

/// The JSON text of an external-URLs object: `{"spotify":"<escaped link>"}`.
pub open spec fn spec_external_urls_json(spotify: Seq<char>) -> Seq<char> {
    "{\"spotify\":\""@ + json_escaped(spotify) + "\"}"@
}

/// Serializes an external-URLs object to its JSON text.
pub fn external_urls_json(urls: &SpotifyExternalUrls) -> (r: String)
    ensures
        r@ == spec_external_urls_json(urls.spotify@),
{
    let mut escaped: Vec<char> = Vec::new();
    push_json_escaped(urls.spotify.as_str(), &mut escaped);
    let mut r: String = String::from_str("{\"spotify\":\"");
    let middle: String = chars_to_string(&escaped);
    r.append(middle.as_str());
    r.append("\"}");
    proof {
        assert(r@ =~= spec_external_urls_json(urls.spotify@));
    }
    r
}

/// Maps a catalog track to a store track: fields carried over, external URLs
/// as JSON text, no video URL yet.
pub fn spotify_track_to_db_track(spotify_track: &SpotifyTrack) -> (r: DatabaseTrack)
    ensures
        r.id == spotify_track.id,
        r.name == spotify_track.name,
        r.spotify_uri == spotify_track.uri,
        r.duration_ms == spotify_track.duration_ms,
        r.explicit == spotify_track.explicit,
        r.popularity == spotify_track.popularity,
        r.preview_url == spotify_track.preview_url,
        r.external_urls@ == spec_external_urls_json(spotify_track.external_urls.spotify@),
        r.youtube_url is None,
        r.isrc == spotify_track.external_ids.isrc,
{
    DatabaseTrack {
        id: spotify_track.id.clone(),
        name: spotify_track.name.clone(),
        spotify_uri: spotify_track.uri.clone(),
        duration_ms: spotify_track.duration_ms,
        explicit: spotify_track.explicit,
        popularity: spotify_track.popularity,
        preview_url: clone_option_string(&spotify_track.preview_url),
        external_urls: external_urls_json(&spotify_track.external_urls),
        youtube_url: None,
        isrc: clone_option_string(&spotify_track.external_ids.isrc),
    }
}

/// Maps a catalog artist to a store artist.
pub fn spotify_artist_to_db_artist(spotify_artist: &SpotifyArtist) -> (r: DatabaseArtist)
    ensures
        r.id == spotify_artist.id,
        r.name == spotify_artist.name,
        r.spotify_uri == spotify_artist.uri,
        r.external_urls@ == spec_external_urls_json(spotify_artist.external_urls.spotify@),
{
    DatabaseArtist {
        id: spotify_artist.id.clone(),
        name: spotify_artist.name.clone(),
        spotify_uri: spotify_artist.uri.clone(),
        external_urls: external_urls_json(&spotify_artist.external_urls),
    }
}

/// Maps a catalog album to a store album.
pub fn spotify_album_to_db_album(spotify_album: &SpotifyAlbum) -> (r: DatabaseAlbum)
    ensures
        r.id == spotify_album.id,
        r.name == spotify_album.name,
        r.spotify_uri == spotify_album.uri,
        r.album_type == spotify_album.album_type,
        r.release_date == spotify_album.release_date,
        r.total_tracks == spotify_album.total_tracks,
{
    DatabaseAlbum {
        id: spotify_album.id.clone(),
        name: spotify_album.name.clone(),
        spotify_uri: spotify_album.uri.clone(),
        album_type: spotify_album.album_type.clone(),
        release_date: spotify_album.release_date.clone(),
        total_tracks: spotify_album.total_tracks,
    }
}

fn clone_option_string(v: &Option<String>) -> (r: Option<String>)
    ensures
        r == *v,
{
    match v {
        Some(s) => Some(s.clone()),
        None => None,
    }
}

} // verus!
