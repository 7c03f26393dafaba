use spotify_to_youtube::matching::{find_best_youtube_match, MatchError};
use spotify_to_youtube::models::{DatabaseArtist, DatabaseTrack};
use spotify_to_youtube::youtube_api::{
    YouTubeSearchId, YouTubeSearchResult, YouTubeSearchSnippet, YouTubeThumbnails,
};

fn mk_track(name: &str) -> DatabaseTrack {
    DatabaseTrack {
        id: String::from("t1"),
        name: String::from(name),
        spotify_uri: String::from("spotify:track:t1"),
        duration_ms: 355_000,
        explicit: false,
        popularity: 90,
        preview_url: None,
        external_urls: String::from("{}"),
        youtube_url: None,
        isrc: None,
    }
}

fn mk_artist(name: &str) -> DatabaseArtist {
    DatabaseArtist {
        id: String::from(name),
        name: String::from(name),
        spotify_uri: String::new(),
        external_urls: String::from("{}"),
    }
}

fn mk_item(video_id: Option<&str>, title: &str, channel: &str) -> YouTubeSearchResult {
    YouTubeSearchResult {
        kind: String::from("youtube#searchResult"),
        etag: String::from("etag"),
        id: YouTubeSearchId {
            kind: String::from(if video_id.is_some() {
                "youtube#video"
            } else {
                "youtube#channel"
            }),
            video_id: video_id.map(String::from),
            channel_id: None,
            playlist_id: None,
        },
        snippet: YouTubeSearchSnippet {
            published_at: String::from("2020-01-01T00:00:00Z"),
            channel_id: String::from("c"),
            title: String::from(title),
            description: String::new(),
            thumbnails: YouTubeThumbnails {
                default: None,
                medium: None,
                high: None,
                standard: None,
                maxres: None,
            },
            channel_title: String::from(channel),
            live_broadcast_content: None,
            publish_time: None,
        },
    }
}

#[test]
fn best_match_prefers_title_and_artist_signals() {
    let track = mk_track("Bohemian Rhapsody");
    let artists = vec![mk_artist("Queen")];
    let items = vec![
        mk_item(Some("vid0"), "Random live compilation", "someone"),
        mk_item(
            Some("vid1"),
            "Queen - Bohemian Rhapsody (Official Video)",
            "Queen Official",
        ),
    ];
    assert_eq!(find_best_youtube_match(&items, &track, &artists), Ok(1));
}

#[test]
fn matching_is_case_insensitive() {
    let track = mk_track("IMAGINE");
    let artists: Vec<DatabaseArtist> = Vec::new();
    let items = vec![
        mk_item(Some("a"), "some other song", "nobody"),
        mk_item(Some("b"), "imagine (remastered)", "john lennon"),
    ];
    assert_eq!(find_best_youtube_match(&items, &track, &artists), Ok(1));
}

#[test]
fn vevo_and_official_channels_get_a_bonus() {
    let track = mk_track("Untitled");
    let artists: Vec<DatabaseArtist> = Vec::new();
    let items = vec![
        mk_item(Some("a"), "video one", "plain channel"),
        mk_item(Some("b"), "video two", "ArtistVEVO"),
    ];
    // 15 (vevo) + 2 (position) beats 4 (position alone).
    assert_eq!(find_best_youtube_match(&items, &track, &artists), Ok(1));
}

#[test]
fn unusable_results_never_win() {
    let track = mk_track("Bohemian Rhapsody");
    let artists = vec![mk_artist("Queen")];
    let items = vec![
        mk_item(None, "Queen - Bohemian Rhapsody (Official Video)", "Queen Official"),
        mk_item(Some("usable"), "unrelated clip", "whoever"),
    ];
    assert_eq!(find_best_youtube_match(&items, &track, &artists), Ok(1));
}

#[test]
fn all_unusable_candidates_fail() {
    let track = mk_track("Anything");
    let artists: Vec<DatabaseArtist> = Vec::new();
    let items = vec![
        mk_item(None, "a channel result", "x"),
        mk_item(None, "a playlist result", "y"),
    ];
    assert_eq!(
        find_best_youtube_match(&items, &track, &artists),
        Err(MatchError::NoUsableCandidates)
    );
}

#[test]
fn empty_candidate_list_fails() {
    let track = mk_track("Anything");
    let artists: Vec<DatabaseArtist> = Vec::new();
    let items: Vec<YouTubeSearchResult> = Vec::new();
    assert_eq!(
        find_best_youtube_match(&items, &track, &artists),
        Err(MatchError::NoUsableCandidates)
    );
}

#[test]
fn selection_is_deterministic() {
    let track = mk_track("Bohemian Rhapsody");
    let artists = vec![mk_artist("Queen")];
    let items = vec![
        mk_item(Some("a"), "Queen interview", "Queen Official"),
        mk_item(Some("b"), "Bohemian Rhapsody cover", "some band"),
        mk_item(Some("c"), "Queen - Bohemian Rhapsody", "QueenVEVO"),
    ];
    let first = find_best_youtube_match(&items, &track, &artists);
    let second = find_best_youtube_match(&items, &track, &artists);
    assert_eq!(first, second);
    assert_eq!(first, Ok(2));
}

#[test]
fn no_signal_at_all_picks_the_first_result() {
    let track = mk_track("Completely Unfindable");
    let artists: Vec<DatabaseArtist> = Vec::new();
    let items = vec![
        mk_item(Some("a"), "one", "x"),
        mk_item(Some("b"), "two", "y"),
        mk_item(Some("c"), "three", "z"),
    ];
    assert_eq!(find_best_youtube_match(&items, &track, &artists), Ok(0));
}

#[test]
fn adding_the_track_name_to_a_title_wins_the_selection() {
    let track = mk_track("Starlight");
    let artists: Vec<DatabaseArtist> = Vec::new();
    let plain = mk_item(Some("late"), "a nondescript upload", "channel nine");
    let winner_before = vec![
        mk_item(Some("early"), "first upload", "channel one"),
        plain.clone(),
    ];
    assert_eq!(find_best_youtube_match(&winner_before, &track, &artists), Ok(0));
    let improved = vec![
        mk_item(Some("early"), "first upload", "channel one"),
        mk_item(Some("late"), "a nondescript upload of Starlight", "channel nine"),
    ];
    assert_eq!(find_best_youtube_match(&improved, &track, &artists), Ok(1));
}
