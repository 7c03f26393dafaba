use spotify_to_youtube::conversion::{
    build_mock_query, build_search_query, conversion_plan, effective_batch_limit,
    mock_video_id, mock_youtube_url, process_search_results, track_search_params,
    youtube_watch_url, BatchCounters, ConversionError, ConversionPlan, MOCK_SEARCH_DELAY_MS,
    SEARCH_RATE_LIMIT_DELAY_MS,
};
use spotify_to_youtube::models::{ConversionStats, DatabaseArtist, DatabaseTrack};
use spotify_to_youtube::youtube_api::{
    YouTubeSearchId, YouTubeSearchResult, YouTubeSearchSnippet, YouTubeThumbnails,
};

fn mk_track(name: &str, uri: &str, youtube_url: Option<&str>) -> DatabaseTrack {
    DatabaseTrack {
        id: String::from("track-1"),
        name: String::from(name),
        spotify_uri: String::from(uri),
        duration_ms: 200_000,
        explicit: false,
        popularity: 50,
        preview_url: None,
        external_urls: String::from("{}"),
        youtube_url: youtube_url.map(String::from),
        isrc: None,
    }
}

fn mk_artist(name: &str) -> DatabaseArtist {
    DatabaseArtist {
        id: String::from(name),
        name: String::from(name),
        spotify_uri: String::new(),
        external_urls: String::from("{}"),
    }
}

fn mk_item(video_id: Option<&str>, title: &str, channel: &str) -> YouTubeSearchResult {
    YouTubeSearchResult {
        kind: String::from("youtube#searchResult"),
        etag: String::from("etag"),
        id: YouTubeSearchId {
            kind: String::from("youtube#video"),
            video_id: video_id.map(String::from),
            channel_id: None,
            playlist_id: None,
        },
        snippet: YouTubeSearchSnippet {
            published_at: String::from("2020-01-01T00:00:00Z"),
            channel_id: String::from("c"),
            title: String::from(title),
            description: String::new(),
            thumbnails: YouTubeThumbnails {
                default: None,
                medium: None,
                high: None,
                standard: None,
                maxres: None,
            },
            channel_title: String::from(channel),
            live_broadcast_content: None,
            publish_time: None,
        },
    }
}

#[test]
fn converted_track_is_returned_without_a_search() {
    let track = mk_track(
        "Imagine",
        "spotify:track:xyz",
        Some("https://www.youtube.com/watch?v=existing123"),
    );
    let artists = vec![mk_artist("John Lennon")];
    let first = conversion_plan(&track, &artists);
    let second = conversion_plan(&track, &artists);
    assert_eq!(
        first,
        ConversionPlan::AlreadyConverted(String::from(
            "https://www.youtube.com/watch?v=existing123"
        ))
    );
    assert_eq!(first, second);
}

#[test]
fn empty_stored_url_still_needs_a_search() {
    let track = mk_track("Imagine", "", Some(""));
    let artists: Vec<DatabaseArtist> = Vec::new();
    assert_eq!(
        conversion_plan(&track, &artists),
        ConversionPlan::SearchNeeded(String::from("Imagine"))
    );
}

#[test]
fn query_uses_first_artist() {
    let track = mk_track("Bohemian Rhapsody", "spotify:track:abc", None);
    let artists = vec![mk_artist("Queen"), mk_artist("Somebody Else")];
    assert_eq!(build_search_query(&track, &artists), "Bohemian Rhapsody Queen");
    assert_eq!(build_mock_query(&track, &artists), "Bohemian Rhapsody Queen");
}

#[test]
fn query_falls_back_to_official_bias_with_catalog_uri() {
    let track = mk_track("Bohemian Rhapsody", "spotify:track:abc", None);
    let artists: Vec<DatabaseArtist> = Vec::new();
    assert_eq!(build_search_query(&track, &artists), "Bohemian Rhapsody official");
    assert_eq!(build_mock_query(&track, &artists), "Bohemian Rhapsody");
}

#[test]
fn query_falls_back_to_bare_name() {
    let track = mk_track("Bohemian Rhapsody", "", None);
    let artists: Vec<DatabaseArtist> = Vec::new();
    assert_eq!(build_search_query(&track, &artists), "Bohemian Rhapsody");
}

#[test]
fn track_search_params_shape() {
    let p = track_search_params(String::from("Imagine John Lennon"));
    assert_eq!(p.query, "Imagine John Lennon");
    assert_eq!(p.max_results, Some(5));
    assert_eq!(p.order, Some(String::from("relevance")));
    assert_eq!(p.video_duration, Some(String::from("medium")));
    assert_eq!(p.safe_search, Some(String::from("moderate")));
}

#[test]
fn no_results_is_its_own_error() {
    let track = mk_track("Imagine", "", None);
    let artists: Vec<DatabaseArtist> = Vec::new();
    let items: Vec<YouTubeSearchResult> = Vec::new();
    assert_eq!(
        process_search_results(&track, &artists, &items),
        Err(ConversionError::NoResultsFound)
    );
}

#[test]
fn unusable_results_are_their_own_error() {
    let track = mk_track("Imagine", "", None);
    let artists: Vec<DatabaseArtist> = Vec::new();
    let items = vec![mk_item(None, "a", "b"), mk_item(None, "c", "d")];
    assert_eq!(
        process_search_results(&track, &artists, &items),
        Err(ConversionError::NoUsableCandidates)
    );
}

#[test]
fn winning_candidate_becomes_a_watch_url() {
    let track = mk_track("Imagine", "", None);
    let artists = vec![mk_artist("John Lennon")];
    let items = vec![
        mk_item(Some("weak1"), "unrelated", "someone"),
        mk_item(Some("match7"), "John Lennon - Imagine", "LennonVEVO"),
    ];
    assert_eq!(
        process_search_results(&track, &artists, &items),
        Ok(String::from("https://www.youtube.com/watch?v=match7"))
    );
}

#[test]
fn watch_url_shape() {
    assert_eq!(
        youtube_watch_url("abcDEF12345"),
        "https://www.youtube.com/watch?v=abcDEF12345"
    );
}

#[test]
fn mock_id_is_deterministic() {
    let a = mock_video_id("Imagine John Lennon");
    let b = mock_video_id("Imagine John Lennon");
    assert_eq!(a, b);
    assert_eq!(a.len(), 11);
    let c = mock_video_id("Imagine John Lennon ");
    assert_ne!(a, c);
}

#[test]
fn mock_id_matches_the_digest_prefix() {
    // The md5 digest of the empty string is fixed for all time.
    assert_eq!(mock_video_id(""), "d41d8cd98f0");
    let digest = format!("{:x}", md5::compute("Imagine John Lennon".as_bytes()));
    assert_eq!(mock_video_id("Imagine John Lennon"), &digest[0..11]);
}

#[test]
fn mock_conversion_builds_a_watch_url() {
    let track = mk_track("Imagine", "", None);
    let artists = vec![mk_artist("John Lennon")];
    let url = mock_youtube_url(&track, &artists);
    let id = mock_video_id("Imagine John Lennon");
    assert_eq!(url, format!("https://www.youtube.com/watch?v={}", id));
}

#[test]
fn batch_keeps_counting_past_failures() {
    let outcomes = [true, true, false, true, true];
    let mut tally = BatchCounters::new();
    for ok in outcomes {
        tally.record(ok);
    }
    assert_eq!(tally.processed, 5);
    assert_eq!(tally.successful, 4);
    assert_eq!(tally.failed, 1);
}

#[test]
fn delays_match_the_design() {
    assert_eq!(SEARCH_RATE_LIMIT_DELAY_MS, 100);
    assert_eq!(MOCK_SEARCH_DELAY_MS, 200);
}

#[test]
fn conversion_stats_carries_counts() {
    let stats = ConversionStats::new(10, 7, 3);
    assert_eq!(stats.total_tracks, 10);
    assert_eq!(stats.converted_tracks, 7);
    assert_eq!(stats.pending_conversion, 3);
}

#[test]
fn batch_limit_is_the_smaller_cap() {
    assert_eq!(effective_batch_limit(50, None), 50);
    assert_eq!(effective_batch_limit(50, Some(10)), 10);
    assert_eq!(effective_batch_limit(50, Some(200)), 50);
    assert_eq!(effective_batch_limit(50, Some(50)), 50);
}
