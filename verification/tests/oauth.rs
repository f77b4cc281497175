use spotify_tui::api::{
    api_url, classify_response, playlist_tracks_endpoint, repeat_endpoint, search_endpoint,
    shuffle_endpoint, start_playback_body, transfer_body, ResponseStep,
};
use spotify_tui::error::{is_not_auth, ApiError};
use spotify_tui::oauth::{
    callback_code, CallbackOutcome, expiry_at, generate_pkce, pkce_from_bytes, random_state, token_from_response, APIClient,
    AuthError, Token,
};

#[test]
fn pkce_is_url_safe() {
    let (verifier, challenge) = generate_pkce();
    assert!(!verifier.is_empty());
    assert!(!challenge.is_empty());
    assert!(!verifier.contains('='));
    assert!(!challenge.contains('='));
}

#[test]
fn pkce_matches_the_rfc_example() {
    // RFC 7636, appendix B.
    let bytes: [u8; 32] = [
        116, 24, 223, 180, 151, 153, 224, 37, 79, 250, 96, 125, 216, 173, 187, 186, 22, 212, 37,
        77, 105, 214, 191, 240, 91, 88, 5, 88, 83, 132, 141, 121,
    ];
    let (verifier, challenge) = pkce_from_bytes(&bytes);
    assert_eq!(verifier, "dBjftJeZ4CVP-mB92K27uhbUJU1p1r_wW1gFWFOEjXk");
    assert_eq!(challenge, "E9Melhoa2OwvFrEMTJguCHaoeK1t8URWbuGJSstw-cM");
}

#[test]
fn fresh_values_differ() {
    let (v1, _) = generate_pkce();
    let (v2, _) = generate_pkce();
    assert_ne!(v1, v2);
    assert_eq!(v1.len(), 43);
    let s = random_state();
    assert_eq!(s.len(), 22);
    assert!(s.chars().all(|c| c.is_ascii_alphanumeric() || c == '-' || c == '_'));
}

#[test]
fn auth_url_carries_the_query() {
    let client = APIClient::new("abc".to_string());
    let url = client.get_auth_url("st", "ch").ok().unwrap();
    assert_eq!(
        url,
        "https://accounts.spotify.com/authorize?client_id=abc&response_type=code&redirect_uri=http%3A%2F%2F127.0.0.1%3A8888%2Fcallback&scope=user-read-playback-state+user-modify-playback-state+user-read-currently-playing+playlist-read-private+user-library-read&state=st&code_challenge_method=S256&code_challenge=ch"
    );
}

#[test]
fn auth_url_encodes_each_value() {
    let client = APIClient::new("a b/\u{e9}&=".to_string());
    let url = client.get_auth_url("s t", "").ok().unwrap();
    assert!(url.starts_with(
        "https://accounts.spotify.com/authorize?client_id=a+b%2F%C3%A9%26%3D&response_type=code&"
    ));
    assert!(url.ends_with("&state=s+t&code_challenge_method=S256&code_challenge="));
}

#[test]
fn token_validity_and_bearer() {
    let mut client = APIClient::new("id".to_string());
    assert!(!client.is_authenticated_at(0));
    assert!(matches!(client.bearer(), Err(ApiError::NotAuthenticated(ref m)) if m == "missing token"));
    client.set_token(Token { access_token: "tok".to_string(), expires_at: 100, ..Default::default() });
    assert!(client.is_authenticated_at(89));
    assert!(!client.is_authenticated_at(90));
    assert_eq!(client.bearer().ok().unwrap(), "Bearer tok");
    assert!(!client.is_authenticated());
}

#[test]
fn expiry_saturates() {
    assert_eq!(expiry_at(10, 3600), 3610);
    assert_eq!(expiry_at(u64::MAX - 1, 10), u64::MAX);
    assert!(Token::calc_expiry(3600) > 3600);
}

#[test]
fn token_exchange_outcomes() {
    let failed = token_from_response(false, "400 Bad Request", " bad \n", None, 5);
    assert!(matches!(failed, Err(AuthError::Exchange(ref m)) if m == "token exchange failed (400 Bad Request): bad"));
    let unreadable = token_from_response(true, "200 OK", "oops", None, 5);
    assert!(matches!(unreadable, Err(AuthError::Exchange(ref m)) if m == "invalid token response: oops"));
    let empty = token_from_response(true, "200 OK", "{}", Some(Token::default()), 5);
    assert!(matches!(empty, Err(AuthError::Exchange(ref m)) if m == "token exchange returned empty access token: {}"));
    let parsed = Token { access_token: "a".to_string(), expires_in: 3600, ..Default::default() };
    let ok = token_from_response(true, "200 OK", "{..}", Some(parsed), 5).ok().unwrap();
    assert_eq!(ok.access_token, "a");
    assert_eq!(ok.expires_at, 3605);
}

#[test]
fn endpoints() {
    assert_eq!(api_url("/me/player"), "https://api.spotify.com/v1/me/player");
    assert_eq!(playlist_tracks_endpoint("p1"), "/playlists/p1/tracks?limit=50");
    assert_eq!(shuffle_endpoint(true), "/me/player/shuffle?state=true");
    assert_eq!(shuffle_endpoint(false), "/me/player/shuffle?state=false");
    assert_eq!(repeat_endpoint("context"), "/me/player/repeat?state=context");
    assert_eq!(
        search_endpoint("naija hits & co/é"),
        "/search?type=track,playlist,artist&limit=10&q=naija+hits+%26+co%2F%C3%A9"
    );
}

#[test]
fn bodies_and_responses() {
    let b = start_playback_body(vec!["u1".to_string()], String::new());
    assert_eq!(b.uris, Some(vec!["u1".to_string()]));
    assert_eq!(b.context_uri, None);
    let c = start_playback_body(Vec::new(), "ctx".to_string());
    assert_eq!(c.uris, None);
    assert_eq!(c.context_uri, Some("ctx".to_string()));
    let t = transfer_body("dev".to_string());
    assert_eq!(t.device_ids, vec!["dev".to_string()]);
    assert!(t.play);
    assert!(matches!(classify_response(401, String::new()), ResponseStep::RefreshAndRetry));
    assert!(matches!(classify_response(404, "nope".to_string()), ResponseStep::Failed(ApiError::Request(ref m)) if m == "nope"));
    assert!(matches!(classify_response(204, String::new()), ResponseStep::Succeeded(_)));
}

#[test]
fn error_texts() {
    let e = ApiError::NotAuthenticated("x".to_string());
    assert_eq!(e.message(), "not authenticated: x");
    assert!(is_not_auth(&e));
    let r = ApiError::Request("y".to_string());
    assert_eq!(r.message(), "request failed: y");
    assert!(!is_not_auth(&r));
}

#[test]
fn callback_requests() {
    assert!(matches!(callback_code("/callback?code=abc&state=xyz", "xyz"), CallbackOutcome::Code(ref c) if c == "abc"));
    assert!(matches!(callback_code("/callback?code=a%20b+c&state=xyz", "xyz"), CallbackOutcome::Code(ref c) if c == "a b c"));
    assert!(matches!(callback_code("/callback?code=abc&state=nope", "xyz"), CallbackOutcome::Refused(ref m) if m == "state mismatch"));
    assert!(matches!(callback_code("/callback?code=abc", "xyz"), CallbackOutcome::Refused(ref m) if m == "state mismatch"));
    assert!(matches!(callback_code("/callback?state=xyz", "xyz"), CallbackOutcome::MissingCode));
    assert!(matches!(callback_code("/callback?code=1&code=2&state=xyz", "xyz"), CallbackOutcome::Code(ref c) if c == "2"));
}
