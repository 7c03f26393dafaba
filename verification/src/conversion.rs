//! The conversion workflow around the match selector: skip-if-converted,
//! search-query building, turning a winning candidate into a watch URL, the
//! deterministic mock search id, and the accounting of a batch run. The
//! calls to the track store and the search provider happen outside; the
//! library decides and computes on plain values.

use vstd::prelude::*;
use crate::matching::{find_best_youtube_match, spec_artist_names_lower, spec_usable, spec_winner, MatchError};
use crate::models::{spec_track_converted, DatabaseArtist, DatabaseTrack};
use crate::text::lower_of;
use crate::youtube_api::{YouTubeSearchParams, YouTubeSearchResult};

verus! {

/// Fixed delay between two live search calls of a batch, to respect the
/// provider's rate limits.
pub const SEARCH_RATE_LIMIT_DELAY_MS: u64 = 100;

/// Simulated latency of the mock search path.
pub const MOCK_SEARCH_DELAY_MS: u64 = 200;

/// Per-track failures of the conversion workflow; none of them aborts a
/// batch.
#[derive(Debug, Clone, PartialEq, Eq)]
pub enum ConversionError {
    /// The search provider returned no results at all.
    NoResultsFound,
    /// Results came back, but none carried a video id.
    NoUsableCandidates,
    /// The track store failed while reading or writing.
    StoreError(String),
    /// The transport layer failed while calling the provider.
    RequestError(String),
}

/// The query sent to the search provider: track name plus the first known
/// artist; with no artist, the name biased toward official uploads when a
/// catalog URI proves the track canonical, else the bare name.
pub open spec fn spec_search_query(name: Seq<char>, artists: Seq<Seq<char>>, uri: Seq<char>) -> Seq<
    char,
> {
    if artists.len() > 0 {
        name + " "@ + artists[0]
    } else if uri.len() > 0 {
        name + " official"@
    } else {
        name
    }
}

/// The query hashed by the mock search path: track name plus the first known
/// artist, or the bare name.
pub open spec fn spec_mock_query(name: Seq<char>, artists: Seq<Seq<char>>) -> Seq<char> {
    if artists.len() > 0 {
        name + " "@ + artists[0]
    } else {
        name
    }
}

/// The watch URL for a video id.
pub open spec fn spec_watch_url(video_id: Seq<char>) -> Seq<char> {
    "https://www.youtube.com/watch?v="@ + video_id
}

/// The raw names of a list of artists.
pub open spec fn spec_artist_names(artists: Seq<DatabaseArtist>) -> Seq<Seq<char>> {
    artists.map_values(|a: DatabaseArtist| a.name@)
}

/// The number of tracks one batch run may pull: at most `batch_size`,
/// further capped by `max_tracks` when the caller sets one.
pub fn effective_batch_limit(batch_size: i64, max_tracks: Option<i64>) -> (r: i64)
    ensures
        max_tracks matches Some(m) ==> r == (if m < batch_size {
            m
        } else {
            batch_size
        }),
        max_tracks is None ==> r == batch_size,
{
    match max_tracks {
        Some(m) => {
            if m < batch_size {
                m
            } else {
                batch_size
            }
        },
        None => batch_size,
    }
}

/// Builds the live search query for `track` with its known `artists`.
pub fn build_search_query(track: &DatabaseTrack, artists: &Vec<DatabaseArtist>) -> (r: String)
    ensures
        r@ == spec_search_query(track.name@, spec_artist_names(artists@), track.spotify_uri@),
{
    if artists.len() > 0 {
        let mut q: String = String::from_str(track.name.as_str());
        q.append(" ");
        q.append(artists[0].name.as_str());
        proof {
            assert(q@ =~= spec_search_query(
                track.name@,
                spec_artist_names(artists@),
                track.spotify_uri@,
            ));
        }
        q
    } else if !track.spotify_uri.as_str().is_empty() {
        let mut q: String = String::from_str(track.name.as_str());
        q.append(" official");
        q
    } else {
        String::from_str(track.name.as_str())
    }
}

/// Builds the query the mock search path hashes.
pub fn build_mock_query(track: &DatabaseTrack, artists: &Vec<DatabaseArtist>) -> (r: String)
    ensures
        r@ == spec_mock_query(track.name@, spec_artist_names(artists@)),
{
    if artists.len() > 0 {
        let mut q: String = String::from_str(track.name.as_str());
        q.append(" ");
        q.append(artists[0].name.as_str());
        proof {
            assert(q@ =~= spec_mock_query(track.name@, spec_artist_names(artists@)));
        }
        q
    } else {
        String::from_str(track.name.as_str())
    }
}

/// The search parameters a conversion uses: the built query, a few results
/// for matching, relevance order, and a bias toward medium-length videos
/// (songs rather than long uploads).
pub fn track_search_params(query: String) -> (p: YouTubeSearchParams)
    ensures
        p.query == query,
        p.max_results == Some(5u32),
        p.order matches Some(s) && s@ == "relevance"@,
        p.video_duration matches Some(s) && s@ == "medium"@,
        p.safe_search matches Some(s) && s@ == "moderate"@,
        p.published_after is None,
        p.published_before is None,
        p.region_code is None,
        p.relevance_language is None,
        p.video_type is None,
        p.video_definition is None,
        p.video_caption is None,
        p.page_token is None,
{
    YouTubeSearchParams {
        query,
        max_results: Some(5),
        order: Some(String::from_str("relevance")),
        video_duration: Some(String::from_str("medium")),
        ..Default::default()
    }
}

/// The watch URL for a video id.
pub fn youtube_watch_url(video_id: &str) -> (r: String)
    ensures
        r@ == spec_watch_url(video_id@),
{
    let mut url: String = String::from_str("https://www.youtube.com/watch?v=");
    url.append(video_id);
    url
}

/// What the md5 crate's digest of a query renders to in lowercase hex: a
/// function of the input characters alone.
pub uninterp spec fn md5_hex_of(s: Seq<char>) -> Seq<char>;

/// Relies on `md5::compute` and the digest's `LowerHex` rendering: a 16-byte
/// digest of the input bytes, written as 32 lowercase hex digits, depending
/// on the input alone; named `md5_hex_of` in contracts.
#[verifier::external_body]
fn md5_hex(s: &str) -> (r: String)
    ensures
        r@ == md5_hex_of(s@),
        r@.len() == 32,
{
    format!("{:x}", md5::compute(s.as_bytes()))
}

/// The fabricated video id of the mock search path: the first 11 hex digits
/// of the query's digest. A function of the query alone, so the mock path is
/// deterministic.
pub open spec fn spec_mock_video_id(query: Seq<char>) -> Seq<char> {
    md5_hex_of(query).subrange(0, 11)
}

/// The mock search path's video id for `query`.
pub fn mock_video_id(query: &str) -> (r: String)
    ensures
        r@ == spec_mock_video_id(query@),
{
    let digest: String = md5_hex(query);
    let id: &str = digest.as_str().substring_char(0, 11);
    String::from_str(id)
}

/// Law: the mock search path is deterministic — two calls on the same query
/// string fabricate the same video id.
pub proof fn lemma_mock_id_deterministic(q1: Seq<char>, q2: Seq<char>)
    requires
        q1 == q2,
    ensures
        spec_mock_video_id(q1) == spec_mock_video_id(q2),
{
}

/// The full mock conversion of a track: watch URL over the hashed query.
pub fn mock_youtube_url(track: &DatabaseTrack, artists: &Vec<DatabaseArtist>) -> (r: String)
    ensures
        r@ == spec_watch_url(
            spec_mock_video_id(spec_mock_query(track.name@, spec_artist_names(artists@))),
        ),
{
    let query: String = build_mock_query(track, artists);
    let id: String = mock_video_id(query.as_str());
    youtube_watch_url(id.as_str())
}

/// First decision of `convert_one`: a track that already carries a non-empty
/// video URL is returned as it stands, without calling the search provider —
/// so converting twice returns the same URL and searches at most once. Only
/// an unconverted track leads to a search, with the query above.
#[derive(Debug, Clone, PartialEq, Eq)]
pub enum ConversionPlan {
    /// The track is converted; its stored URL is the result.
    AlreadyConverted(String),
    /// The track needs a search with this query.
    SearchNeeded(String),
}

/// Decides what `convert_one` does for `track`: keep the stored URL, or
/// search with the built query.
pub fn conversion_plan(track: &DatabaseTrack, artists: &Vec<DatabaseArtist>) -> (p: ConversionPlan)
    ensures
        spec_track_converted(*track) ==> (p matches ConversionPlan::AlreadyConverted(u)
            && track.youtube_url == Some(u)),
        !spec_track_converted(*track) ==> (p matches ConversionPlan::SearchNeeded(q) && q@
            == spec_search_query(track.name@, spec_artist_names(artists@), track.spotify_uri@)),
{
    match &track.youtube_url {
        Some(existing) => {
            if !existing.as_str().is_empty() {
                return ConversionPlan::AlreadyConverted(existing.clone());
            }
        },
        None => {},
    }
    ConversionPlan::SearchNeeded(build_search_query(track, artists))
}

/// Turns a search response into a watch URL for `track`: no results at all is
/// `NoResultsFound`, results without a single video id are
/// `NoUsableCandidates`, otherwise the winning candidate's id becomes the
/// URL.
pub fn process_search_results(
    track: &DatabaseTrack,
    artists: &Vec<DatabaseArtist>,
    items: &Vec<YouTubeSearchResult>,
) -> (r: Result<String, ConversionError>)
    ensures
        (r is Ok) == (exists|j: int| 0 <= j < items@.len() && spec_usable(items@, j)),
        r matches Ok(url) ==> (exists|i: int|
            {
                &&& spec_winner(
                    items@,
                    lower_of(track.name@),
                    spec_artist_names_lower(artists@),
                    i,
                )
                &&& items@[i].id.video_id matches Some(v) && url@ == spec_watch_url(v@)
            }),
        (r matches Err(e) && e == ConversionError::NoResultsFound) == (items@.len() == 0),
        (r matches Err(e) && e == ConversionError::NoUsableCandidates) == (items@.len() > 0
            && (forall|j: int| 0 <= j < items@.len() ==> !spec_usable(items@, j))),
{
    if items.len() == 0 {
        return Err(ConversionError::NoResultsFound);
    }
    match find_best_youtube_match(items, track, artists) {
        Ok(best) => {
            match &items[best].id.video_id {
                Some(v) => {
                    let url: String = youtube_watch_url(v.as_str());
                    proof {
                        let i = best as int;
                        assert(spec_winner(
                            items@,
                            lower_of(track.name@),
                            spec_artist_names_lower(artists@),
                            i,
                        ) && (items@[i].id.video_id matches Some(vv) && url@ == spec_watch_url(
                            vv@,
                        )));
                    }
                    Ok(url)
                },
                None => {
                    proof {
                        assert(false);
                    }
                    Err(ConversionError::NoUsableCandidates)
                },
            }
        },
        Err(MatchError::NoUsableCandidates) => Err(ConversionError::NoUsableCandidates),
    }
}

/// Running tally of a batch conversion: how many tracks were processed, and
/// how the attempts split into successes and failures. The batch never stops
/// at a failed track; it records the failure and goes on.
#[derive(Debug, Clone, PartialEq, Eq, Structural)]
pub struct BatchCounters {
    pub processed: u64,
    pub successful: u64,
    pub failed: u64,
}

/// The tally is consistent: every processed track was either a success or a
/// failure.
pub open spec fn spec_counters_consistent(c: BatchCounters) -> bool {
    c.processed == c.successful + c.failed
}

impl BatchCounters {
    /// An empty tally.
    pub fn new() -> (r: BatchCounters)
        ensures
            r.processed == 0,
            r.successful == 0,
            r.failed == 0,
            spec_counters_consistent(r),
    {
        BatchCounters { processed: 0, successful: 0, failed: 0 }
    }

    /// Records the outcome of one track's conversion attempt.
    pub fn record(&mut self, success: bool)
        requires
            spec_counters_consistent(*old(self)),
            old(self).processed < u64::MAX,
        ensures
            final(self).processed == old(self).processed + 1,
            success ==> final(self).successful == old(self).successful + 1 && final(self).failed
                == old(self).failed,
            !success ==> final(self).failed == old(self).failed + 1 && final(self).successful
                == old(self).successful,
            spec_counters_consistent(*final(self)),
    {
        self.processed = self.processed + 1;
        if success {
            self.successful = self.successful + 1;
        } else {
            self.failed = self.failed + 1;
        }
    }
}

} // verus!
