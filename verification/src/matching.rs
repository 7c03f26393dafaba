//! Best-effort selection of a video for a known track: deterministic scoring
//! of search candidates by case-insensitive containment signals, with the
//! provider's own relevance order as tiebreaker.
//!
//! All scoring specs speak of lowercase-folded character sequences
//! (`lower_of` of the raw text); the executable code folds once and scores on
//! the folded forms.

use vstd::prelude::*;
use crate::models::{DatabaseArtist, DatabaseTrack};
use crate::text::{contains_substring, has_substring, lower_of, lowercase};
use crate::youtube_api::YouTubeSearchResult;

verus! {

/// Selection failure: every candidate lacked a video id (or there were none).
#[derive(Debug, Clone, PartialEq, Eq, Structural)]
pub enum MatchError {
    NoUsableCandidates,
}

/// Points one artist name contributes: 80 when it occurs in the title, 60
/// when it occurs in the channel name (title is the stronger signal).
pub open spec fn artist_signal(artist: Seq<char>, title: Seq<char>, channel: Seq<char>) -> int {
    (if has_substring(title, artist) {
        80int
    } else {
        0int
    }) + (if has_substring(channel, artist) {
        60int
    } else {
        0int
    })
}

/// Sum of the artist signals over a list of artist names.
pub open spec fn artist_points(artists: Seq<Seq<char>>, title: Seq<char>, channel: Seq<char>) -> int
    decreases artists.len(),
{
    if artists.len() == 0 {
        0
    } else {
        artist_points(artists.drop_last(), title, channel) + artist_signal(
            artists.last(),
            title,
            channel,
        )
    }
}

/// Position-independent part of a candidate's score: 100 for the track name
/// in the title, the artist signals, 20 for an "official" channel and 15 for
/// a "vevo" channel.
pub open spec fn base_score(
    track: Seq<char>,
    artists: Seq<Seq<char>>,
    title: Seq<char>,
    channel: Seq<char>,
) -> int {
    (if has_substring(title, track) {
        100int
    } else {
        0int
    }) + artist_points(artists, title, channel) + (if has_substring(channel, "official"@) {
        20int
    } else {
        0int
    }) + (if has_substring(channel, "vevo"@) {
        15int
    } else {
        0int
    })
}

/// Full score of the candidate at `index` out of `n`: the base score plus
/// `(n - index) * 2`, a small edge for earlier (more relevant) results.
pub open spec fn candidate_score(
    track: Seq<char>,
    artists: Seq<Seq<char>>,
    title: Seq<char>,
    channel: Seq<char>,
    n: int,
    index: int,
) -> int {
    base_score(track, artists, title, channel) + (n - index) * 2
}

/// The lowercase-folded names of a list of artists.
pub open spec fn spec_artist_names_lower(artists: Seq<DatabaseArtist>) -> Seq<Seq<char>> {
    artists.map_values(|a: DatabaseArtist| lower_of(a.name@))
}

/// A candidate is usable only when it carries a video id; channel and
/// playlist results cannot become a watch URL and never enter scoring.
pub open spec fn spec_usable(items: Seq<YouTubeSearchResult>, i: int) -> bool {
    items[i].id.video_id is Some
}

/// Score of the candidate at `i`, over the folded track name `track_l` and
/// folded artist names `artists_l`.
pub open spec fn spec_item_score(
    items: Seq<YouTubeSearchResult>,
    track_l: Seq<char>,
    artists_l: Seq<Seq<char>>,
    i: int,
) -> int {
    candidate_score(
        track_l,
        artists_l,
        lower_of(items[i].snippet.title@),
        lower_of(items[i].snippet.channel_title@),
        items.len() as int,
        i,
    )
}

/// The candidate at `i` wins: it is usable, scores strictly above every
/// earlier usable candidate and at least as high as every later one (ties
/// resolve to the earliest).
pub open spec fn spec_winner(
    items: Seq<YouTubeSearchResult>,
    track_l: Seq<char>,
    artists_l: Seq<Seq<char>>,
    i: int,
) -> bool {
    &&& 0 <= i < items.len()
    &&& spec_usable(items, i)
    &&& forall|j: int|
        0 <= j < i && spec_usable(items, j) ==> spec_item_score(items, track_l, artists_l, j)
            < spec_item_score(items, track_l, artists_l, i)
    &&& forall|j: int|
        i < j < items.len() && spec_usable(items, j) ==> spec_item_score(
            items,
            track_l,
            artists_l,
            j,
        ) <= spec_item_score(items, track_l, artists_l, i)
}

fn score_artists(artists_l: &Vec<String>, title_l: &str, channel_l: &str) -> (s: u128)
    ensures
        s as int == artist_points(
            artists_l@.map_values(|a: String| a@),
            title_l@,
            channel_l@,
        ),
        s <= 140 * artists_l@.len(),
{
    let ghost names: Seq<Seq<char>> = artists_l@.map_values(|a: String| a@);
    let mut s: u128 = 0;
    let mut k: usize = 0;
    while k < artists_l.len()
        invariant
            k <= artists_l@.len(),
            names == artists_l@.map_values(|a: String| a@),
            s as int == artist_points(names.subrange(0, k as int), title_l@, channel_l@),
            s <= 140 * k,
        decreases artists_l@.len() - k,
    {
        let artist: &String = &artists_l[k];
        let mut add: u128 = 0;
        if contains_substring(title_l, artist.as_str()) {
            add = add + 80;
        }
        if contains_substring(channel_l, artist.as_str()) {
            add = add + 60;
        }
        proof {
            assert(names.subrange(0, k + 1).drop_last() =~= names.subrange(0, k as int));
            assert(names.subrange(0, k + 1).last() == names[k as int]);
            assert(add as int == artist_signal(names[k as int], title_l@, channel_l@));
        }
        s = s + add;
        k = k + 1;
    }
    proof {
        assert(names.subrange(0, artists_l@.len() as int) =~= names);
    }
    s
}

fn score_candidate(
    track_l: &str,
    artists_l: &Vec<String>,
    title_l: &str,
    channel_l: &str,
    n: usize,
    index: usize,
) -> (s: u128)
    requires
        index < n,
    ensures
        s as int == candidate_score(
            track_l@,
            artists_l@.map_values(|a: String| a@),
            title_l@,
            channel_l@,
            n as int,
            index as int,
        ),
{
    let alen: usize = artists_l.len();
    let mut s: u128 = 0;
    if contains_substring(title_l, track_l) {
        s = s + 100;
    }
    let artist_part: u128 = score_artists(artists_l, title_l, channel_l);
    assert(artist_part <= 140 * (alen as u128));
    s = s + artist_part;
    if contains_substring(channel_l, "official") {
        s = s + 20;
    }
    if contains_substring(channel_l, "vevo") {
        s = s + 15;
    }
    let edge: u128 = ((n - index) as u128) * 2;
    s = s + edge;
    s
}

/// Picks the single best usable candidate for `track` out of `items`, per the
/// scoring above; fails exactly when no candidate carries a video id.
pub fn find_best_youtube_match(
    items: &Vec<YouTubeSearchResult>,
    track: &DatabaseTrack,
    artists: &Vec<DatabaseArtist>,
) -> (r: Result<usize, MatchError>)
    ensures
        (r is Ok) == (exists|j: int| 0 <= j < items@.len() && spec_usable(items@, j)),
        r matches Ok(i) ==> spec_winner(
            items@,
            lower_of(track.name@),
            spec_artist_names_lower(artists@),
            i as int,
        ),
        r matches Err(e) ==> e == MatchError::NoUsableCandidates,
{
    let ghost tl: Seq<char> = lower_of(track.name@);
    let ghost al: Seq<Seq<char>> = spec_artist_names_lower(artists@);
    let track_l: String = lowercase(track.name.as_str());
    let mut artists_l: Vec<String> = Vec::new();
    let mut k: usize = 0;
    while k < artists.len()
        invariant
            k <= artists@.len(),
            artists_l@.len() == k,
            forall|t: int| 0 <= t < k ==> artists_l@[t]@ == lower_of(artists@[t].name@),
        decreases artists@.len() - k,
    {
        let folded: String = lowercase(artists[k].name.as_str());
        artists_l.push(folded);
        k = k + 1;
    }
    proof {
        assert(artists_l@.map_values(|a: String| a@) =~= al);
    }
    let n: usize = items.len();
    let mut best_found: bool = false;
    let mut best_idx: usize = 0;
    let mut best_score: u128 = 0;
    let mut i: usize = 0;
    while i < n
        invariant
            n == items@.len(),
            i <= n,
            track_l@ == tl,
            artists_l@.map_values(|a: String| a@) == al,
            !best_found ==> forall|j: int| 0 <= j < i ==> !spec_usable(items@, j),
            best_found ==> {
                &&& 0 <= best_idx < i
                &&& spec_usable(items@, best_idx as int)
                &&& best_score as int == spec_item_score(items@, tl, al, best_idx as int)
                &&& forall|j: int|
                    0 <= j < best_idx && spec_usable(items@, j) ==> spec_item_score(
                        items@,
                        tl,
                        al,
                        j,
                    ) < best_score
                &&& forall|j: int|
                    best_idx < j < i && spec_usable(items@, j) ==> spec_item_score(
                        items@,
                        tl,
                        al,
                        j,
                    ) <= best_score
            },
        decreases n - i,
    {
        let item: &YouTubeSearchResult = &items[i];
        if item.id.video_id.is_some() {
            let title_l: String = lowercase(item.snippet.title.as_str());
            let channel_l: String = lowercase(item.snippet.channel_title.as_str());
            let s: u128 = score_candidate(
                track_l.as_str(),
                &artists_l,
                title_l.as_str(),
                channel_l.as_str(),
                n,
                i,
            );
            assert(s as int == spec_item_score(items@, tl, al, i as int));
            if !best_found || s > best_score {
                best_found = true;
                best_idx = i;
                best_score = s;
            }
        }
        i = i + 1;
    }
    if best_found {
        Ok(best_idx)
    } else {
        Err(MatchError::NoUsableCandidates)
    }
}

/// Law: the selection is deterministic — for a fixed track name, artist list
/// and candidate list there is at most one winning position, so repeated
/// calls return the same candidate.
pub proof fn lemma_winner_unique(
    items: Seq<YouTubeSearchResult>,
    track_l: Seq<char>,
    artists_l: Seq<Seq<char>>,
    i: int,
    j: int,
)
    requires
        spec_winner(items, track_l, artists_l, i),
        spec_winner(items, track_l, artists_l, j),
    ensures
        i == j,
{
    if i < j {
        assert(spec_item_score(items, track_l, artists_l, i) < spec_item_score(
            items,
            track_l,
            artists_l,
            j,
        ));
        assert(spec_item_score(items, track_l, artists_l, j) <= spec_item_score(
            items,
            track_l,
            artists_l,
            i,
        ));
    } else if j < i {
        assert(spec_item_score(items, track_l, artists_l, j) < spec_item_score(
            items,
            track_l,
            artists_l,
            i,
        ));
        assert(spec_item_score(items, track_l, artists_l, i) <= spec_item_score(
            items,
            track_l,
            artists_l,
            j,
        ));
    }
}

/// Law: when no title, artist or channel signal fires for any usable
/// candidate, the earliest usable candidate wins — the provider's own
/// relevance order decides, and such a result is a low-confidence match.
pub proof fn lemma_no_signal_first_usable_wins(
    items: Seq<YouTubeSearchResult>,
    track_l: Seq<char>,
    artists_l: Seq<Seq<char>>,
    w: int,
)
    requires
        0 <= w < items.len(),
        spec_usable(items, w),
        forall|j: int| 0 <= j < w ==> !spec_usable(items, j),
        forall|j: int|
            0 <= j < items.len() && spec_usable(items, j) ==> base_score(
                track_l,
                artists_l,
                lower_of(items[j].snippet.title@),
                lower_of(items[j].snippet.channel_title@),
            ) == 0,
    ensures
        spec_winner(items, track_l, artists_l, w),
{
    assert forall|j: int| w < j < items.len() && spec_usable(items, j) implies spec_item_score(
        items,
        track_l,
        artists_l,
        j,
    ) <= spec_item_score(items, track_l, artists_l, w) by {
        assert(spec_item_score(items, track_l, artists_l, j) == (items.len() - j) * 2);
        assert(spec_item_score(items, track_l, artists_l, w) == (items.len() - w) * 2);
    }
}

proof fn lemma_artist_points_congruence(
    artists: Seq<Seq<char>>,
    title_a: Seq<char>,
    title_b: Seq<char>,
    channel: Seq<char>,
)
    requires
        forall|k: int|
            0 <= k < artists.len() ==> (has_substring(title_a, artists[k]) <==> has_substring(
                title_b,
                artists[k],
            )),
    ensures
        artist_points(artists, title_a, channel) == artist_points(artists, title_b, channel),
    decreases artists.len(),
{
    if artists.len() > 0 {
        assert(artists.last() == artists[artists.len() - 1]);
        assert(forall|k: int|
            0 <= k < artists.len() - 1 ==> artists.drop_last()[k] == artists[k]);
        lemma_artist_points_congruence(artists.drop_last(), title_a, title_b, channel);
    }
}

/// Law: a title that contains the track name scores exactly 100 above an
/// otherwise-identical title that does not, provided the artist signals in
/// the two titles agree.
pub proof fn lemma_title_match_adds_hundred(
    track: Seq<char>,
    artists: Seq<Seq<char>>,
    title_with: Seq<char>,
    title_without: Seq<char>,
    channel: Seq<char>,
    n: int,
    index: int,
)
    requires
        has_substring(title_with, track),
        !has_substring(title_without, track),
        forall|k: int|
            0 <= k < artists.len() ==> (has_substring(title_with, artists[k]) <==> has_substring(
                title_without,
                artists[k],
            )),
    ensures
        candidate_score(track, artists, title_with, channel, n, index) == candidate_score(
            track,
            artists,
            title_without,
            channel,
            n,
            index,
        ) + 100,
{
    lemma_artist_points_congruence(artists, title_with, title_without, channel);
}

/// Law: raising one candidate's score while every other candidate stays the
/// same can only work in that candidate's favor — if it won before, it still
/// wins.
pub proof fn lemma_score_improvement_keeps_winner(
    items_before: Seq<YouTubeSearchResult>,
    items_after: Seq<YouTubeSearchResult>,
    track_l: Seq<char>,
    artists_l: Seq<Seq<char>>,
    w: int,
)
    requires
        items_after.len() == items_before.len(),
        spec_winner(items_before, track_l, artists_l, w),
        spec_usable(items_after, w),
        spec_item_score(items_after, track_l, artists_l, w) >= spec_item_score(
            items_before,
            track_l,
            artists_l,
            w,
        ),
        forall|j: int| 0 <= j < items_before.len() && j != w ==> items_after[j] == items_before[j],
    ensures
        spec_winner(items_after, track_l, artists_l, w),
{
    assert forall|j: int| 0 <= j < items_after.len() && j != w implies spec_item_score(
        items_after,
        track_l,
        artists_l,
        j,
    ) == spec_item_score(items_before, track_l, artists_l, j) && (spec_usable(items_after, j)
        <==> spec_usable(items_before, j)) by {
        assert(items_after[j] == items_before[j]);
    }
}

} // verus!
