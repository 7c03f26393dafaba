use spotify_to_youtube::spotify_api::{
    SpotifyApi, SpotifyApiError, SpotifyAuthResponse, TokenAction, TokenState,
    REFRESH_RETRY_SECS, TOKEN_EXPIRY_MARGIN_SECS, UNKNOWN_EXPIRY_WAIT_SECS,
};

fn client() -> SpotifyApi {
    SpotifyApi::new(
        String::from("client-id"),
        String::from("client-secret"),
        String::from("http://localhost:8080/callback"),
    )
}

fn refresh_response(access: &str, refresh: &str, expires_in: u64) -> SpotifyAuthResponse {
    SpotifyAuthResponse {
        access_token: String::from(access),
        token_type: String::from("Bearer"),
        scope: String::from("user-read-private"),
        expires_in,
        refresh_token: String::from(refresh),
    }
}

#[test]
fn new_client_has_no_tokens() {
    let api = client();
    assert!(api.get_access_token().is_none());
    assert!(api.get_refresh_token().is_none());
    assert_eq!(api.get_code(), "");
    assert!(api.expires_at.is_none());
    assert!(api.get_token_state().is_none());
}

#[test]
fn with_tokens_restores_everything() {
    let api = SpotifyApi::with_tokens(
        String::from("id"),
        String::from("secret"),
        String::from("uri"),
        String::from("at"),
        String::from("rt"),
        Some(77),
    );
    assert_eq!(api.get_access_token(), Some(&String::from("at")));
    assert_eq!(api.get_refresh_token(), Some(&String::from("rt")));
    assert_eq!(api.expires_at, Some(77));
}

#[test]
fn auth_url_carries_credentials() {
    let api = client();
    let expected = format!(
        "https://accounts.spotify.com/authorize?client_id={}&response_type=code&redirect_uri={}&scope=user-read-private user-read-email user-read-playback-state playlist-read-private playlist-read-collaborative",
        "client-id", "http://localhost:8080/callback"
    );
    assert_eq!(api.get_auth_url(), expected);
}

#[test]
fn setters_overwrite_fields() {
    let mut api = client();
    api.set_access_token(String::from("a1"));
    api.set_refresh_token(String::from("r1"));
    api.set_code(String::from("c1"));
    assert_eq!(api.get_access_token(), Some(&String::from("a1")));
    assert_eq!(api.get_refresh_token(), Some(&String::from("r1")));
    assert_eq!(api.get_code(), "c1");
}

#[test]
fn expiry_margin_boundary() {
    let mut api = client();
    api.set_expires_at_from(0, 1000);
    assert_eq!(api.expires_at, Some(1000));
    assert!(!api.is_token_expired_at(879));
    assert!(api.is_token_expired_at(880));
    assert!(api.is_token_expired_at(1000));
    assert!(api.is_token_expired_at(5000));
}

#[test]
fn expiry_within_margin_of_epoch_counts_as_expired() {
    let mut api = client();
    api.set_expires_at_from(0, TOKEN_EXPIRY_MARGIN_SECS);
    assert!(api.is_token_expired_at(0));
}

#[test]
fn missing_expiry_counts_as_expired() {
    let api = client();
    assert!(api.is_token_expired_at(0));
    assert!(api.is_token_expired());
}

#[test]
fn ensure_valid_action_cases() {
    let now = 1_000_000;
    let mut valid = client();
    valid.set_access_token(String::from("at"));
    valid.set_expires_at_from(now, 3600);
    assert_eq!(valid.ensure_valid_action(now), TokenAction::UseCurrent);

    let mut refreshable = client();
    refreshable.set_access_token(String::from("at"));
    refreshable.set_refresh_token(String::from("rt"));
    assert_eq!(refreshable.ensure_valid_action(now), TokenAction::Refresh);

    let mut stranded = client();
    stranded.set_access_token(String::from("at"));
    assert_eq!(stranded.ensure_valid_action(now), TokenAction::Reauthorize);

    let empty = client();
    assert_eq!(empty.ensure_valid_action(now), TokenAction::Reauthorize);
}

#[test]
fn refresh_retains_old_refresh_token_when_response_omits_it() {
    let mut api = client();
    api.set_access_token(String::from("old-at"));
    api.set_refresh_token(String::from("old-rt"));
    let resp = refresh_response("new-at", "", 3600);
    api.apply_refresh_response(&resp, 50);
    assert_eq!(api.get_access_token(), Some(&String::from("new-at")));
    assert_eq!(api.get_refresh_token(), Some(&String::from("old-rt")));
    assert_eq!(api.expires_at, Some(3650));
}

#[test]
fn refresh_takes_new_refresh_token_when_provided() {
    let mut api = client();
    api.set_refresh_token(String::from("old-rt"));
    let resp = refresh_response("new-at", "new-rt", 60);
    api.apply_refresh_response(&resp, 0);
    assert_eq!(api.get_refresh_token(), Some(&String::from("new-rt")));
    assert_eq!(api.expires_at, Some(60));
}

#[test]
fn refresh_loop_wait_schedule() {
    let mut api = client();
    assert_eq!(api.refresh_loop_wait(123), UNKNOWN_EXPIRY_WAIT_SECS);
    api.set_expires_at_from(0, 5000);
    assert_eq!(api.refresh_loop_wait(1000), 5000 - TOKEN_EXPIRY_MARGIN_SECS - 1000);
    assert_eq!(api.refresh_loop_wait(4880), 0);
    assert_eq!(api.refresh_loop_wait(9999), 0);
    assert_eq!(REFRESH_RETRY_SECS, 300);
}

#[test]
fn token_state_round_trip() {
    let mut api = client();
    api.set_access_token(String::from("at"));
    assert!(api.get_token_state().is_none());
    api.set_refresh_token(String::from("rt"));
    api.set_expires_at_from(10, 20);
    let state = api.get_token_state().unwrap();
    assert_eq!(state.access_token, "at");
    assert_eq!(state.refresh_token, "rt");
    assert_eq!(state.expires_at, Some(30));

    let mut fresh = client();
    fresh.restore_token_state(TokenState {
        access_token: String::from("at"),
        refresh_token: String::from("rt"),
        expires_at: Some(30),
    });
    assert_eq!(fresh.get_token_state().unwrap(), state);
}

#[test]
fn error_messages_name_the_failure() {
    assert_eq!(
        SpotifyApiError::RequestError(String::from("timed out")).message(),
        "Request error: timed out"
    );
    assert_eq!(
        SpotifyApiError::AuthError(String::from("denied")).message(),
        "Authentication error: denied"
    );
    assert_eq!(
        SpotifyApiError::InvalidData(String::from("bad json")).message(),
        "Invalid data: bad json"
    );
}

#[test]
fn auth_code_exchange_overwrites_both_tokens() {
    let mut api = client();
    api.set_refresh_token(String::from("old-rt"));
    let resp = refresh_response("first-at", "first-rt", 3600);
    api.apply_auth_code_response(&resp, 100);
    assert_eq!(api.get_access_token(), Some(&String::from("first-at")));
    assert_eq!(api.get_refresh_token(), Some(&String::from("first-rt")));
    assert_eq!(api.expires_at, Some(3700));
}

#[test]
fn empty_authorization_code_is_rejected_before_the_exchange() {
    let mut api = client();
    assert_eq!(
        api.authorization_code_for_exchange(),
        Err(SpotifyApiError::AuthError(String::from("Authorization code is required")))
    );
    api.set_code(String::from("the-code"));
    assert_eq!(api.authorization_code_for_exchange(), Ok(String::from("the-code")));
}

#[test]
fn near_epoch_expiry_counts_as_expired_at_any_clock_reading() {
    let mut api = client();
    api.set_expires_at_from(0, TOKEN_EXPIRY_MARGIN_SECS);
    assert!(api.is_token_expired());
}
