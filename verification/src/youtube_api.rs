//! The video search provider's data model and the construction of its search
//! request URL. Sending the request is left to the caller; the library only
//! builds and interprets plain values.

use vstd::prelude::*;
use crate::text::{dec_str, decimal_string};

verus! {

/// Failures of the video search provider. Transport errors arrive as text
/// from the HTTP layer.
#[derive(Debug, Clone, PartialEq, Eq)]
pub enum YouTubeApiError {
    RequestError(String),
    AuthError(String),
    InvalidData(String),
}

impl YouTubeApiError {
    /// The error line the service logs and returns for this failure.
    pub fn message(&self) -> (r: String)
        ensures
            self matches YouTubeApiError::RequestError(e) ==> r@ == "Request error: "@ + e@,
            self matches YouTubeApiError::AuthError(e) ==> r@ == "Authentication error: "@ + e@,
            self matches YouTubeApiError::InvalidData(e) ==> r@ == "Invalid data: "@ + e@,
    {
        match self {
            YouTubeApiError::RequestError(e) => {
                let mut r: String = String::from_str("Request error: ");
                r.append(e.as_str());
                r
            },
            YouTubeApiError::AuthError(e) => {
                let mut r: String = String::from_str("Authentication error: ");
                r.append(e.as_str());
                r
            },
            YouTubeApiError::InvalidData(e) => {
                let mut r: String = String::from_str("Invalid data: ");
                r.append(e.as_str());
                r
            },
        }
    }
}

/// Handle for the video search provider: just the API key used in URLs.
#[derive(Debug, Clone, PartialEq, Eq)]
pub struct YouTubeApi {
    pub api_key: String,
}

impl YouTubeApi {
    /// Wraps an API key.
    pub fn new(api_key: String) -> (r: YouTubeApi)
        ensures
            r.api_key == api_key,
    {
        YouTubeApi { api_key }
    }
}

/// One page of search results as the provider returns it.
#[derive(Debug, Clone, PartialEq, Eq)]
pub struct YouTubeSearchListResponse {
    pub kind: String,
    pub etag: String,
    pub next_page_token: Option<String>,
    pub prev_page_token: Option<String>,
    pub region_code: Option<String>,
    pub page_info: YouTubePageInfo,
    pub items: Vec<YouTubeSearchResult>,
}

/// Paging counts of a search response.
#[derive(Debug, Clone, PartialEq, Eq)]
pub struct YouTubePageInfo {
    pub total_results: u32,
    pub results_per_page: u32,
}

/// One search result: an id (video, channel or playlist) and its snippet.
#[derive(Debug, Clone, PartialEq, Eq)]
pub struct YouTubeSearchResult {
    pub kind: String,
    pub etag: String,
    pub id: YouTubeSearchId,
    pub snippet: YouTubeSearchSnippet,
}

/// The id of a search result. A missing `video_id` marks a result that cannot
/// become a watch URL (a channel or playlist hit).
#[derive(Debug, Clone, PartialEq, Eq)]
pub struct YouTubeSearchId {
    pub kind: String,
    pub video_id: Option<String>,
    pub channel_id: Option<String>,
    pub playlist_id: Option<String>,
}

/// Descriptive part of a search result; `title` and `channel_title` feed the
/// match scoring.
#[derive(Debug, Clone, PartialEq, Eq)]
pub struct YouTubeSearchSnippet {
    pub published_at: String,
    pub channel_id: String,
    pub title: String,
    pub description: String,
    pub thumbnails: YouTubeThumbnails,
    pub channel_title: String,
    pub live_broadcast_content: Option<String>,
    pub publish_time: Option<String>,
}

/// Thumbnail variants of a result.
#[derive(Debug, Clone, PartialEq, Eq)]
pub struct YouTubeThumbnails {
    pub default: Option<YouTubeThumbnail>,
    pub medium: Option<YouTubeThumbnail>,
    pub high: Option<YouTubeThumbnail>,
    pub standard: Option<YouTubeThumbnail>,
    pub maxres: Option<YouTubeThumbnail>,
}

/// One thumbnail image.
#[derive(Debug, Clone, PartialEq, Eq)]
pub struct YouTubeThumbnail {
    pub url: String,
    pub width: Option<u32>,
    pub height: Option<u32>,
}

/// Parameters of a search request; optional fields are left out of the URL.
#[derive(Debug, Clone, PartialEq, Eq)]
pub struct YouTubeSearchParams {
    pub query: String,
    pub max_results: Option<u32>,
    pub order: Option<String>,
    pub published_after: Option<String>,
    pub published_before: Option<String>,
    pub region_code: Option<String>,
    pub relevance_language: Option<String>,
    pub safe_search: Option<String>,
    pub video_type: Option<String>,
    pub video_duration: Option<String>,
    pub video_definition: Option<String>,
    pub video_caption: Option<String>,
    pub page_token: Option<String>,
}

impl Default for YouTubeSearchParams {
    /// An empty relevance-ordered search with moderate safe-search, 25
    /// results a page.
    fn default() -> (r: YouTubeSearchParams)
        ensures
            r.query@ == Seq::<char>::empty(),
            r.max_results == Some(25u32),
            r.order matches Some(s) && s@ == "relevance"@,
            r.published_after is None,
            r.published_before is None,
            r.region_code is None,
            r.relevance_language is None,
            r.safe_search matches Some(s) && s@ == "moderate"@,
            r.video_type is None,
            r.video_duration is None,
            r.video_definition is None,
            r.video_caption is None,
            r.page_token is None,
    {
        YouTubeSearchParams {
            query: String::new(),
            max_results: Some(25),
            order: Some(String::from_str("relevance")),
            published_after: None,
            published_before: None,
            region_code: None,
            relevance_language: None,
            safe_search: Some(String::from_str("moderate")),
            video_type: None,
            video_duration: None,
            video_definition: None,
            video_caption: None,
            page_token: None,
        }
    }
}

/// The parameters of a plain search: the query and a result cap, 10 when the
/// caller names none, everything else as `Default` has it.
pub fn simple_search_params(query: &str, max_results: Option<u32>) -> (p: YouTubeSearchParams)
    ensures
        p.query@ == query@,
        max_results matches Some(n) ==> p.max_results == Some(n),
        max_results is None ==> p.max_results == Some(10u32),
        p.order matches Some(s) && s@ == "relevance"@,
        p.safe_search matches Some(s) && s@ == "moderate"@,
        p.published_after is None,
        p.published_before is None,
        p.region_code is None,
        p.relevance_language is None,
        p.video_type is None,
        p.video_duration is None,
        p.video_definition is None,
        p.video_caption is None,
        p.page_token is None,
{
    let capped: Option<u32> = match max_results {
        Some(n) => Some(n),
        None => Some(10),
    };
    YouTubeSearchParams {
        query: String::from_str(query),
        max_results: capped,
        ..Default::default()
    }
}

/// What `urlencoding::encode` returns: a function of the input characters
/// alone.
pub uninterp spec fn url_encoded_of(s: Seq<char>) -> Seq<char>;

/// Relies on `urlencoding::encode`: percent-encodes every byte except
/// alphanumerics and `-`, `_`, `.`, `~`; named `url_encoded_of` in contracts.
#[verifier::external_body]
pub(crate) fn url_encode(s: &str) -> (r: String)
    ensures
        r@ == url_encoded_of(s@),
{
    urlencoding::encode(s).into_owned()
}

/// A `name=value` URL parameter for an optional percent-encoded setting, or
/// nothing when the setting is absent.
pub open spec fn spec_encoded_param(prefix: Seq<char>, v: Option<String>) -> Seq<char> {
    match v {
        Some(s) => prefix + url_encoded_of(s@),
        None => Seq::empty(),
    }
}

/// The full search URL for `params` under `key`, parameter for parameter in
/// the order the provider's API documents.
pub open spec fn spec_search_url(key: Seq<char>, p: YouTubeSearchParams) -> Seq<char> {
    "https://www.googleapis.com/youtube/v3/search?part=snippet&key="@ + url_encoded_of(key)
        + "&q="@ + url_encoded_of(p.query@) + (match p.max_results {
        Some(n) => "&maxResults="@ + dec_str(n as nat),
        None => Seq::empty(),
    }) + spec_encoded_param("&order="@, p.order) + spec_encoded_param(
        "&publishedAfter="@,
        p.published_after,
    ) + spec_encoded_param("&publishedBefore="@, p.published_before) + spec_encoded_param(
        "&regionCode="@,
        p.region_code,
    ) + spec_encoded_param("&relevanceLanguage="@, p.relevance_language) + spec_encoded_param(
        "&safeSearch="@,
        p.safe_search,
    ) + spec_encoded_param("&videoType="@, p.video_type) + spec_encoded_param(
        "&videoDuration="@,
        p.video_duration,
    ) + spec_encoded_param("&videoDefinition="@, p.video_definition) + spec_encoded_param(
        "&videoCaption="@,
        p.video_caption,
    ) + spec_encoded_param("&pageToken="@, p.page_token) + "&type=video"@
}

fn push_encoded_param(url: String, prefix: &str, v: &Option<String>) -> (r: String)
    ensures
        r@ == url@ + spec_encoded_param(prefix@, *v),
{
    match v {
        Some(s) => {
            let encoded: String = url_encode(s.as_str());
            let r: String = url.concat(prefix).concat(encoded.as_str());
            proof {
                assert(r@ =~= url@ + spec_encoded_param(prefix@, *v));
            }
            r
        },
        None => {
            proof {
                assert(url@ =~= url@ + spec_encoded_param(prefix@, *v));
            }
            url
        },
    }
}

impl YouTubeApi {
    /// Builds the search request URL for `params`, exactly as the service
    /// sends it to the provider.
    #[verifier::rlimit(50)]
    pub fn build_search_url(&self, params: &YouTubeSearchParams) -> (r: String)
        ensures
            r@ == spec_search_url(self.api_key@, *params),
    {
        let key_enc: String = url_encode(self.api_key.as_str());
        let query_enc: String = url_encode(params.query.as_str());
        let mut url: String = String::from_str(
            "https://www.googleapis.com/youtube/v3/search?part=snippet&key=",
        );
        url.append(key_enc.as_str());
        url.append("&q=");
        url.append(query_enc.as_str());
        match &params.max_results {
            Some(n) => {
                let digits: String = decimal_string(*n as u64);
                url.append("&maxResults=");
                url.append(digits.as_str());
            },
            None => {},
        }
        let url = push_encoded_param(url, "&order=", &params.order);
        let url = push_encoded_param(url, "&publishedAfter=", &params.published_after);
        let url = push_encoded_param(url, "&publishedBefore=", &params.published_before);
        let url = push_encoded_param(url, "&regionCode=", &params.region_code);
        let url = push_encoded_param(url, "&relevanceLanguage=", &params.relevance_language);
        let url = push_encoded_param(url, "&safeSearch=", &params.safe_search);
        let url = push_encoded_param(url, "&videoType=", &params.video_type);
        let url = push_encoded_param(url, "&videoDuration=", &params.video_duration);
        let url = push_encoded_param(url, "&videoDefinition=", &params.video_definition);
        let url = push_encoded_param(url, "&videoCaption=", &params.video_caption);
        let url = push_encoded_param(url, "&pageToken=", &params.page_token);
        let url = url.concat("&type=video");
        proof {
            assert(url@ =~= spec_search_url(self.api_key@, *params));
        }
        url
    }
}

} // verus!
