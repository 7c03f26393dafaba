//! The track catalog's data model as the provider returns it, the merging of
//! paginated track pages, and the extraction of a playlist id from a shared
//! link.

use vstd::prelude::*;
use crate::spotify_api::SpotifyApiError;

verus! {

/// Links a catalog object carries to its public pages.
#[derive(Debug, Clone, PartialEq, Eq)]
pub struct SpotifyExternalUrls {
    pub spotify: String,
}

/// One cover or avatar image.
#[derive(Debug, Clone, PartialEq, Eq)]
pub struct SpotifyImage {
    pub url: String,
    pub height: Option<u32>,
    pub width: Option<u32>,
}

/// A catalog user, as playlist owner or track adder.
#[derive(Debug, Clone, PartialEq, Eq)]
pub struct SpotifyUser {
    pub external_urls: SpotifyExternalUrls,
    pub href: String,
    pub id: String,
    pub user_type: String,
    pub uri: String,
    pub display_name: Option<String>,
}

/// A catalog artist.
#[derive(Debug, Clone, PartialEq, Eq)]
pub struct SpotifyArtist {
    pub external_urls: SpotifyExternalUrls,
    pub href: String,
    pub id: String,
    pub name: String,
    pub artist_type: String,
    pub uri: String,
}

/// Why a catalog object is restricted in the caller's market.
#[derive(Debug, Clone, PartialEq, Eq)]
pub struct SpotifyRestrictions {
    pub reason: String,
}

/// A catalog album.
#[derive(Debug, Clone, PartialEq, Eq)]
pub struct SpotifyAlbum {
    pub album_type: String,
    pub total_tracks: u32,
    pub available_markets: Vec<String>,
    pub external_urls: SpotifyExternalUrls,
    pub href: String,
    pub id: String,
    pub images: Vec<SpotifyImage>,
    pub name: String,
    pub release_date: String,
    pub release_date_precision: String,
    pub restrictions: Option<SpotifyRestrictions>,
    pub album_type_field: String,
    pub uri: String,
    pub artists: Vec<SpotifyArtist>,
}

/// Industry identifiers of a track.
#[derive(Debug, Clone, PartialEq, Eq)]
pub struct SpotifyExternalIds {
    pub isrc: Option<String>,
    pub ean: Option<String>,
    pub upc: Option<String>,
}

/// A catalog track. `linked_from` is carried through untouched as the raw
/// text the provider sent; the service never reads it.
#[derive(Debug, Clone, PartialEq, Eq)]
pub struct SpotifyTrack {
    pub album: SpotifyAlbum,
    pub artists: Vec<SpotifyArtist>,
    pub available_markets: Vec<String>,
    pub disc_number: u32,
    pub duration_ms: u32,
    pub explicit: bool,
    pub external_ids: SpotifyExternalIds,
    pub external_urls: SpotifyExternalUrls,
    pub href: String,
    pub id: String,
    pub is_playable: Option<bool>,
    pub linked_from: Option<String>,
    pub restrictions: Option<SpotifyRestrictions>,
    pub name: String,
    pub popularity: u32,
    pub preview_url: Option<String>,
    pub track_number: u32,
    pub track_type: String,
    pub uri: String,
    pub is_local: bool,
}

/// One entry of a playlist: the track and how it was added.
#[derive(Debug, Clone, PartialEq, Eq)]
pub struct SpotifyPlaylistTrackItem {
    pub added_at: String,
    pub added_by: SpotifyUser,
    pub is_local: bool,
    pub track: SpotifyTrack,
}

/// One page of a playlist's tracks, with pagination links.
#[derive(Debug, Clone, PartialEq, Eq)]
pub struct SpotifyPlaylistTracks {
    pub href: String,
    pub limit: u32,
    pub next: Option<String>,
    pub offset: u32,
    pub previous: Option<String>,
    pub total: u32,
    pub items: Vec<SpotifyPlaylistTrackItem>,
}

/// A catalog playlist with its (first page of) tracks.
#[derive(Debug, Clone, PartialEq, Eq)]
pub struct SpotifyPlaylist {
    pub collaborative: bool,
    pub description: Option<String>,
    pub external_urls: SpotifyExternalUrls,
    pub href: String,
    pub id: String,
    pub images: Vec<SpotifyImage>,
    pub name: String,
    pub owner: SpotifyUser,
    pub public: bool,
    pub snapshot_id: String,
    pub tracks: SpotifyPlaylistTracks,
    pub playlist_type: String,
    pub uri: String,
}

impl SpotifyPlaylistTracks {
    /// Merges one further page fetched through the `next` link: its items go
    /// to the end, in order, and its own `next` link takes over.
    pub fn append_page(&mut self, page: SpotifyPlaylistTracks)
        ensures
            final(self).items@ == old(self).items@ + page.items@,
            final(self).next == page.next,
            final(self).href == old(self).href,
            final(self).limit == old(self).limit,
            final(self).offset == old(self).offset,
            final(self).previous == old(self).previous,
            final(self).total == old(self).total,
    {
        let SpotifyPlaylistTracks { items: mut page_items, next: page_next, .. } = page;
        self.items.append(&mut page_items);
        self.next = page_next;
    }

    /// After the last page was merged: the counts describe the complete list
    /// and no pagination links remain.
    pub fn finalize_after_pagination(&mut self)
        requires
            old(self).items@.len() <= u32::MAX,
        ensures
            final(self).limit == old(self).items@.len() as u32,
            final(self).offset == 0,
            final(self).next is None,
            final(self).previous is None,
            final(self).items == old(self).items,
            final(self).href == old(self).href,
            final(self).total == old(self).total,
    {
        self.limit = self.items.len() as u32;
        self.offset = 0;
        self.next = None;
        self.previous = None;
    }
}

/// A word character of a playlist id: ASCII letter, digit or underscore.
pub open spec fn is_word_char(c: char) -> bool {
    ||| 'a' as int <= c as int <= 'z' as int
    ||| 'A' as int <= c as int <= 'Z' as int
    ||| '0' as int <= c as int <= '9' as int
    ||| c == '_'
}

/// A playlist marker at position `i` of a link: the word `playlist`, a `/` or
/// `:` separator, and at least one id character after it.
pub open spec fn marker_match_at(s: Seq<char>, i: int) -> bool {
    &&& 0 <= i
    &&& i + 10 <= s.len()
    &&& s.subrange(i, i + 8) == "playlist"@
    &&& (s[i + 8] == '/' || s[i + 8] == ':')
    &&& is_word_char(s[i + 9])
}

fn is_word_char_exec(c: char) -> (r: bool)
    ensures
        r == is_word_char(c),
{
    let u: u32 = c as u32;
    (u >= 'a' as u32 && u <= 'z' as u32) || (u >= 'A' as u32 && u <= 'Z' as u32) || (u >= '0'
        as u32 && u <= '9' as u32) || c == '_'
}

/// `id` is the maximal word run following the first playlist marker of `s`,
/// which sits at position `i` and whose id run ends at `e`.
pub open spec fn spec_playlist_id_at(s: Seq<char>, i: int, e: int, id: Seq<char>) -> bool {
    &&& marker_match_at(s, i)
    &&& forall|k: int| 0 <= k < i ==> !marker_match_at(s, k)
    &&& i + 9 <= e <= s.len()
    &&& forall|k: int| i + 9 <= k < e ==> is_word_char(s[k])
    &&& e == s.len() || !is_word_char(s[e])
    &&& id == s.subrange(i + 9, e)
}

fn find_playlist_marker(url: &str) -> (r: Option<(usize, usize)>)
    ensures
        (r is Some) == (exists|i: int| marker_match_at(url@, i)),
        r matches Some(p) ==> {
            &&& marker_match_at(url@, p.0 as int)
            &&& forall|k: int| 0 <= k < p.0 ==> !marker_match_at(url@, k)
            &&& p.0 + 10 <= p.1 <= url@.len()
            &&& forall|k: int| p.0 + 9 <= k < p.1 ==> is_word_char(url@[k])
            &&& p.1 == url@.len() || !is_word_char(url@[p.1 as int])
        },
{
    proof {
        reveal_strlit("playlist");
    }
    let n: usize = url.unicode_len();
    if n < 10 {
        assert(forall|i: int| !marker_match_at(url@, i));
        return None;
    }
    let mut i: usize = 0;
    while i <= n - 10
        invariant
            10 <= n,
            n == url@.len(),
            i <= n - 10 + 1,
            forall|k: int| 0 <= k < i ==> !marker_match_at(url@, k),
        decreases n - 10 + 1 - i,
    {
        let sep: char = url.get_char(i + 8);
        let first_id_char: char = url.get_char(i + 9);
        if (sep == '/' || sep == ':') && is_word_char_exec(first_id_char)
            && prefix_matches_at_playlist(url, i) {
            let mut e: usize = i + 10;
            while e < n && is_word_char_on(url, e)
                invariant
                    n == url@.len(),
                    i + 10 <= e <= n,
                    forall|k: int| i + 9 <= k < e ==> is_word_char(url@[k]),
                decreases n - e,
            {
                e = e + 1;
            }
            proof {
                assert(marker_match_at(url@, i as int));
            }
            return Some((i, e));
        }
        i = i + 1;
    }
    proof {
        assert(forall|k: int| #[trigger] marker_match_at(url@, k) ==> 0 <= k <= n - 10);
        assert(forall|k: int| !marker_match_at(url@, k));
    }
    None
}

/// `id` is the word run after the first playlist marker of `s`.
pub open spec fn spec_extracted_playlist_id(s: Seq<char>, id: Seq<char>) -> bool {
    exists|i: int, e: int| spec_playlist_id_at(s, i, e, id)
}

/// Pulls the playlist id out of a shared link: the word run after the first
/// `playlist/` or `playlist:` marker. Handles the web URL forms (with or
/// without query parameters) and the `spotify:playlist:` URI form alike;
/// fails on a link without such a marker.
#[verifier::rlimit(50)]
pub fn extract_playlist_id_from_url(url: &str) -> (r: Result<String, SpotifyApiError>)
    ensures
        (r is Ok) == (exists|i: int| marker_match_at(url@, i)),
        r matches Ok(id) ==> spec_extracted_playlist_id(url@, id@),
        r matches Err(m) ==> (m matches SpotifyApiError::InvalidData(t) && t@
            == "Invalid Spotify playlist URL"@),
{
    match find_playlist_marker(url) {
        Some((start, id_end)) => {
            let id: &str = url.substring_char(start + 9, id_end);
            let id_string: String = String::from_str(id);
            proof {
                assert(spec_playlist_id_at(url@, start as int, id_end as int, id_string@));
                assert(spec_extracted_playlist_id(url@, id_string@));
            }
            return Ok(id_string);
        },
        None => {
            return Err(
                SpotifyApiError::InvalidData(String::from_str("Invalid Spotify playlist URL")),
            );
        },
    }
}

fn prefix_matches_at_playlist(url: &str, i: usize) -> (r: bool)
    requires
        i + 8 <= url@.len(),
    ensures
        r == (url@.subrange(i as int, i + 8) == "playlist"@),
{
    proof {
        reveal_strlit("playlist");
    }
    let r: bool = crate::text::prefix_matches_at(url, i, "playlist");
    r
}

fn is_word_char_on(url: &str, e: usize) -> (r: bool)
    requires
        e < url@.len(),
    ensures
        r == is_word_char(url@[e as int]),
{
    is_word_char_exec(url.get_char(e))
}

} // verus!
