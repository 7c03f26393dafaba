//! OAuth token lifecycle of the track-catalog client: expiry tracking with a
//! safety margin, the decision when a refresh is due, application of refresh
//! responses, and the schedule of the background refresh loop. The HTTP
//! exchange itself happens outside; the library receives the response fields
//! as plain values.

use vstd::prelude::*;

verus! {

/// Safety margin before the recorded expiry within which a token already
/// counts as expired, so it cannot lapse mid-flight.
pub const TOKEN_EXPIRY_MARGIN_SECS: u64 = 120;

/// Fixed wait between retries after a failed background refresh.
pub const REFRESH_RETRY_SECS: u64 = 300;

/// Conservative wait of the refresh loop when no expiry is recorded.
pub const UNKNOWN_EXPIRY_WAIT_SECS: u64 = 3300;

/// Failures of the token lifecycle and the catalog client. Transport
/// errors arrive as text from the HTTP layer.
#[derive(Debug, Clone, PartialEq, Eq)]
pub enum SpotifyApiError {
    RequestError(String),
    AuthError(String),
    InvalidData(String),
}

impl SpotifyApiError {
    /// The error line the service logs and returns for this failure.
    pub fn message(&self) -> (r: String)
        ensures
            self matches SpotifyApiError::RequestError(e) ==> r@ == "Request error: "@ + e@,
            self matches SpotifyApiError::AuthError(e) ==> r@ == "Authentication error: "@ + e@,
            self matches SpotifyApiError::InvalidData(e) ==> r@ == "Invalid data: "@ + e@,
    {
        match self {
            SpotifyApiError::RequestError(e) => {
                let mut r: String = String::from_str("Request error: ");
                r.append(e.as_str());
                r
            },
            SpotifyApiError::AuthError(e) => {
                let mut r: String = String::from_str("Authentication error: ");
                r.append(e.as_str());
                r
            },
            SpotifyApiError::InvalidData(e) => {
                let mut r: String = String::from_str("Invalid data: ");
                r.append(e.as_str());
                r
            },
        }
    }
}

/// The persistable token snapshot: both tokens and the absolute expiry.
#[derive(Debug, Clone, PartialEq, Eq)]
pub struct TokenState {
    pub access_token: String,
    pub refresh_token: String,
    pub expires_at: Option<u64>,
}

/// A token-endpoint response. `refresh_token` may be empty: the provider is
/// free to omit a new one, meaning the old one stays valid.
#[derive(Debug, Clone, PartialEq, Eq)]
pub struct SpotifyAuthResponse {
    pub access_token: String,
    pub token_type: String,
    pub scope: String,
    pub expires_in: u64,
    pub refresh_token: String,
}

/// The authorization callback's query parameters.
#[derive(Debug, Clone, PartialEq, Eq)]
pub struct SpotifyUserAuthResponse {
    pub code: String,
    pub state: String,
    pub error: Option<String>,
}

/// The catalog client's credentials and token state. `expires_at` is an
/// absolute Unix timestamp; its absence counts as already expired.
#[derive(Debug, Clone, PartialEq, Eq)]
pub struct SpotifyApi {
    pub client_id: String,
    pub client_secret: String,
    pub redirect_uri: String,
    pub access_token: Option<String>,
    pub refresh_token: Option<String>,
    pub code: String,
    pub expires_at: Option<u64>,
}

/// A token with expiry `expires_at` counts as expired at time `now` when no
/// expiry is recorded, or when `now` is within the safety margin of it.
pub open spec fn spec_token_expired(expires_at: Option<u64>, now: u64) -> bool {
    match expires_at {
        None => true,
        Some(e) => now as int >= e as int - TOKEN_EXPIRY_MARGIN_SECS,
    }
}

/// The expiry instant recorded for a token valid `expires_in` seconds from
/// `now` (saturated at the largest representable instant).
pub open spec fn spec_expiry_instant(now: u64, expires_in: u64) -> u64 {
    if now + expires_in <= u64::MAX {
        (now + expires_in) as u64
    } else {
        u64::MAX
    }
}

/// What the lifecycle asks its caller to do to end up with a valid token.
#[derive(Debug, Clone, PartialEq, Eq, Structural)]
pub enum TokenAction {
    /// The current access token is present and not expired: use it.
    UseCurrent,
    /// The token is missing or expired and a refresh token exists: refresh.
    Refresh,
    /// No refresh token exists: interactive re-authorization is required.
    Reauthorize,
}

/// Relies on `std::time::SystemTime::now` and `duration_since` against the
/// Unix epoch: seconds since the epoch as the system clock reports them, 0 if
/// the clock reads before the epoch. The result depends on the wall clock, so
/// nothing is promised of it.
#[verifier::external_body]
fn unix_time_now() -> u64 {
    std::time::SystemTime::now().duration_since(std::time::UNIX_EPOCH).map(
        |d| d.as_secs(),
    ).unwrap_or(0)
}

impl SpotifyApi {
    /// A fresh client with credentials only: no tokens, no code, no expiry.
    pub fn new(client_id: String, client_secret: String, redirect_uri: String) -> (r: SpotifyApi)
        ensures
            r.client_id == client_id,
            r.client_secret == client_secret,
            r.redirect_uri == redirect_uri,
            r.access_token is None,
            r.refresh_token is None,
            r.code@ == Seq::<char>::empty(),
            r.expires_at is None,
    {
        SpotifyApi {
            client_id,
            client_secret,
            redirect_uri,
            access_token: None,
            refresh_token: None,
            code: String::new(),
            expires_at: None,
        }
    }

    /// A client restored with tokens from an earlier session.
    pub fn with_tokens(
        client_id: String,
        client_secret: String,
        redirect_uri: String,
        access_token: String,
        refresh_token: String,
        expires_at: Option<u64>,
    ) -> (r: SpotifyApi)
        ensures
            r.client_id == client_id,
            r.client_secret == client_secret,
            r.redirect_uri == redirect_uri,
            r.access_token == Some(access_token),
            r.refresh_token == Some(refresh_token),
            r.code@ == Seq::<char>::empty(),
            r.expires_at == expires_at,
    {
        SpotifyApi {
            client_id,
            client_secret,
            redirect_uri,
            access_token: Some(access_token),
            refresh_token: Some(refresh_token),
            code: String::new(),
            expires_at,
        }
    }

    /// The interactive authorization URL for these credentials.
    pub fn get_auth_url(&self) -> (r: String)
        ensures
            r@ == "https://accounts.spotify.com/authorize?client_id="@ + self.client_id@
                + "&response_type=code&redirect_uri="@ + self.redirect_uri@
                + "&scope=user-read-private user-read-email user-read-playback-state playlist-read-private playlist-read-collaborative"@,
    {
        let mut url: String = String::from_str(
            "https://accounts.spotify.com/authorize?client_id=",
        );
        url.append(self.client_id.as_str());
        url.append("&response_type=code&redirect_uri=");
        url.append(self.redirect_uri.as_str());
        url.append(
            "&scope=user-read-private user-read-email user-read-playback-state playlist-read-private playlist-read-collaborative",
        );
        proof {
            assert(url@ =~= "https://accounts.spotify.com/authorize?client_id="@
                + self.client_id@ + "&response_type=code&redirect_uri="@ + self.redirect_uri@
                + "&scope=user-read-private user-read-email user-read-playback-state playlist-read-private playlist-read-collaborative"@);
        }
        url
    }

    /// Overwrites the access token.
    pub fn set_access_token(&mut self, token: String)
        ensures
            *final(self) == (SpotifyApi { access_token: Some(token), ..*old(self) }),
    {
        self.access_token = Some(token);
    }

    /// The current access token, if any.
    pub fn get_access_token(&self) -> (r: Option<&String>)
        ensures
            (r is Some) == (self.access_token is Some),
            r matches Some(t) ==> self.access_token == Some(*t),
    {
        self.access_token.as_ref()
    }

    /// Overwrites the refresh token.
    pub fn set_refresh_token(&mut self, token: String)
        ensures
            *final(self) == (SpotifyApi { refresh_token: Some(token), ..*old(self) }),
    {
        self.refresh_token = Some(token);
    }

    /// The current refresh token, if any.
    pub fn get_refresh_token(&self) -> (r: Option<&String>)
        ensures
            (r is Some) == (self.refresh_token is Some),
            r matches Some(t) ==> self.refresh_token == Some(*t),
    {
        self.refresh_token.as_ref()
    }

    /// Stores an authorization code for the initial token exchange.
    pub fn set_code(&mut self, code: String)
        ensures
            *final(self) == (SpotifyApi { code, ..*old(self) }),
    {
        self.code = code;
    }

    /// The stored authorization code.
    pub fn get_code(&self) -> (r: &String)
        ensures
            *r == self.code,
    {
        &self.code
    }

    /// Records that the token is valid `expires_in` seconds from `now`.
    pub fn set_expires_at_from(&mut self, now: u64, expires_in: u64)
        ensures
            *final(self) == (SpotifyApi {
                expires_at: Some(spec_expiry_instant(now, expires_in)),
                ..*old(self)
            }),
    {
        let instant: u64 = if now <= u64::MAX - expires_in {
            now + expires_in
        } else {
            u64::MAX
        };
        self.expires_at = Some(instant);
    }

    /// Records that the token is valid `expires_in` seconds from the current
    /// wall-clock time. Whatever the clock reads, the recorded instant is at
    /// least `expires_in` (the instant saturates upward from the reading).
    pub fn set_expires_at(&mut self, expires_in: u64)
        ensures
            final(self).expires_at matches Some(x) && x >= expires_in,
            final(self).client_id == old(self).client_id,
            final(self).client_secret == old(self).client_secret,
            final(self).redirect_uri == old(self).redirect_uri,
            final(self).access_token == old(self).access_token,
            final(self).refresh_token == old(self).refresh_token,
            final(self).code == old(self).code,
    {
        let now: u64 = unix_time_now();
        self.set_expires_at_from(now, expires_in);
    }

    /// Whether the token counts as expired at time `now` (margin included;
    /// an absent expiry always counts as expired).
    pub fn is_token_expired_at(&self, now: u64) -> (r: bool)
        ensures
            r == spec_token_expired(self.expires_at, now),
    {
        match self.expires_at {
            Some(e) => {
                if e <= TOKEN_EXPIRY_MARGIN_SECS {
                    true
                } else {
                    now >= e - TOKEN_EXPIRY_MARGIN_SECS
                }
            },
            None => true,
        }
    }

    /// Whether the token counts as expired right now. The wall clock decides;
    /// whatever it reads, a token without a recorded expiry counts as
    /// expired, and so does one whose expiry lies within the safety margin of
    /// the epoch.
    pub fn is_token_expired(&self) -> (r: bool)
        ensures
            self.expires_at is None ==> r,
            (self.expires_at matches Some(e) && e <= TOKEN_EXPIRY_MARGIN_SECS) ==> r,
    {
        let now: u64 = unix_time_now();
        self.is_token_expired_at(now)
    }

    /// What has to happen at time `now` before an authenticated call can be
    /// made: nothing, a refresh, or interactive re-authorization. Repeated
    /// calls while the token stays valid keep answering `UseCurrent`.
    pub fn ensure_valid_action(&self, now: u64) -> (a: TokenAction)
        ensures
            (a == TokenAction::UseCurrent) == (self.access_token is Some && !spec_token_expired(
                self.expires_at,
                now,
            )),
            (a == TokenAction::Refresh) == ((self.access_token is None || spec_token_expired(
                self.expires_at,
                now,
            )) && self.refresh_token is Some),
            (a == TokenAction::Reauthorize) == ((self.access_token is None || spec_token_expired(
                self.expires_at,
                now,
            )) && self.refresh_token is None),
    {
        if self.access_token.is_none() || self.is_token_expired_at(now) {
            if self.refresh_token.is_some() {
                TokenAction::Refresh
            } else {
                TokenAction::Reauthorize
            }
        } else {
            TokenAction::UseCurrent
        }
    }

    /// Applies a successful refresh response at time `now`: the access token
    /// and expiry are overwritten; the refresh token is overwritten only when
    /// the provider sent a non-empty new one, otherwise the stored one is
    /// retained. On a failed refresh nothing is applied, so the state keeps
    /// the stale-but-possibly-valid tokens.
    pub fn apply_refresh_response(&mut self, resp: &SpotifyAuthResponse, now: u64)
        ensures
            final(self).access_token == Some(resp.access_token),
            resp.refresh_token@.len() > 0 ==> final(self).refresh_token == Some(
                resp.refresh_token,
            ),
            resp.refresh_token@.len() == 0 ==> final(self).refresh_token == old(
                self,
            ).refresh_token,
            final(self).expires_at == Some(spec_expiry_instant(now, resp.expires_in)),
            final(self).client_id == old(self).client_id,
            final(self).client_secret == old(self).client_secret,
            final(self).redirect_uri == old(self).redirect_uri,
            final(self).code == old(self).code,
    {
        self.set_access_token(resp.access_token.clone());
        if !resp.refresh_token.as_str().is_empty() {
            self.set_refresh_token(resp.refresh_token.clone());
        }
        self.set_expires_at_from(now, resp.expires_in);
    }

    /// Checks the stored authorization code before the initial token
    /// exchange: the exchange may only be attempted with a non-empty code.
    pub fn authorization_code_for_exchange(&self) -> (r: Result<String, SpotifyApiError>)
        ensures
            (r is Ok) == (self.code@.len() > 0),
            r matches Ok(c) ==> c == self.code,
            r matches Err(e) ==> (e matches SpotifyApiError::AuthError(m) && m@
                == "Authorization code is required"@),
    {
        if self.code.as_str().is_empty() {
            Err(SpotifyApiError::AuthError(String::from_str("Authorization code is required")))
        } else {
            Ok(self.code.clone())
        }
    }

    /// Applies a successful authorization-code exchange at time `now`. The
    /// initial grant always carries a refresh token, so unlike a refresh both
    /// tokens are overwritten unconditionally.
    pub fn apply_auth_code_response(&mut self, resp: &SpotifyAuthResponse, now: u64)
        ensures
            final(self).access_token == Some(resp.access_token),
            final(self).refresh_token == Some(resp.refresh_token),
            final(self).expires_at == Some(spec_expiry_instant(now, resp.expires_in)),
            final(self).client_id == old(self).client_id,
            final(self).client_secret == old(self).client_secret,
            final(self).redirect_uri == old(self).redirect_uri,
            final(self).code == old(self).code,
    {
        self.set_access_token(resp.access_token.clone());
        self.set_refresh_token(resp.refresh_token.clone());
        self.set_expires_at_from(now, resp.expires_in);
    }

    /// How long the background refresh loop sleeps at time `now` before its
    /// next step: until the safety margin ahead of a known expiry (0 when
    /// that point has passed), or a conservative fixed wait when no expiry is
    /// recorded. After a failed refresh the loop instead waits
    /// `REFRESH_RETRY_SECS` and tries again; it never gives up.
    pub fn refresh_loop_wait(&self, now: u64) -> (w: u64)
        ensures
            self.expires_at is None ==> w == UNKNOWN_EXPIRY_WAIT_SECS,
            self.expires_at matches Some(e) ==> w as int == (if e as int
                - TOKEN_EXPIRY_MARGIN_SECS - now as int >= 0 {
                e as int - TOKEN_EXPIRY_MARGIN_SECS - now as int
            } else {
                0int
            }),
    {
        match self.expires_at {
            Some(e) => {
                if e > TOKEN_EXPIRY_MARGIN_SECS && e - TOKEN_EXPIRY_MARGIN_SECS > now {
                    e - TOKEN_EXPIRY_MARGIN_SECS - now
                } else {
                    0
                }
            },
            None => UNKNOWN_EXPIRY_WAIT_SECS,
        }
    }

    /// The persistable snapshot: present exactly when both tokens are.
    pub fn get_token_state(&self) -> (r: Option<TokenState>)
        ensures
            (r is Some) == (self.access_token is Some && self.refresh_token is Some),
            r matches Some(ts) ==> {
                &&& self.access_token == Some(ts.access_token)
                &&& self.refresh_token == Some(ts.refresh_token)
                &&& ts.expires_at == self.expires_at
            },
    {
        match (&self.access_token, &self.refresh_token) {
            (Some(access_token), Some(refresh_token)) => Some(
                TokenState {
                    access_token: access_token.clone(),
                    refresh_token: refresh_token.clone(),
                    expires_at: self.expires_at,
                },
            ),
            _ => None,
        }
    }

    /// Restores a persisted snapshot, overwriting all token fields.
    pub fn restore_token_state(&mut self, token_state: TokenState)
        ensures
            *final(self) == (SpotifyApi {
                access_token: Some(token_state.access_token),
                refresh_token: Some(token_state.refresh_token),
                expires_at: token_state.expires_at,
                ..*old(self)
            }),
    {
        let TokenState { access_token, refresh_token, expires_at } = token_state;
        self.access_token = Some(access_token);
        self.refresh_token = Some(refresh_token);
        self.expires_at = expires_at;
    }
}

/// Law: the expiry margin. A token expiring `t` seconds from `now` counts as
/// expired exactly when `t` is within the margin, and a token without a
/// recorded expiry always counts as expired.
pub proof fn lemma_expiry_margin(now: u64, t: u64)
    requires
        now + t <= u64::MAX,
    ensures
        spec_token_expired(Some((now + t) as u64), now) <==> t <= TOKEN_EXPIRY_MARGIN_SECS,
        spec_token_expired(None, now),
{
}

} // verus!
