use spotify_auth::authorize::{authorize_params, authorize_url, AuthConfig, AUTHORIZE_ENDPOINT};
use spotify_auth::listener::{
    callback_port, listen_address, port_from_parsed, CallbackListener, CONFIRMATION_PAGE,
    DEFAULT_CALLBACK_PORT,
};
use spotify_auth::playback::{
    format_playback, playback_from_response, token_from_response, PlayableItem, PlaybackState,
};
use spotify_auth::query::{callback_code, find_code, query_pairs, request_query};
use spotify_auth::text::{join_with, push_decimal};
use spotify_auth::AuthError;

fn config() -> AuthConfig {
    AuthConfig {
        client_id: "my client".to_string(),
        client_secret: "SECRET-REDACTED".to_string(),
        redirect_uri: "http://127.0.0.1:8888/callback?x=1&y=2".to_string(),
        scopes: vec!["user-read-currently-playing".to_string(), "user-read-email".to_string()],
        state: Some("abc".to_string()),
        show_dialog: false,
    }
}

fn pair(k: &str, v: &str) -> (String, String) {
    (k.to_string(), v.to_string())
}

fn track(name: &str, artists: &[&str], url: Option<&str>) -> Option<PlaybackState> {
    Some(PlaybackState {
        is_playing: true,
        item: Some(PlayableItem::Track {
            name: name.to_string(),
            artists: artists.iter().map(|a| a.to_string()).collect(),
            url: url.map(|u| u.to_string()),
        }),
    })
}

#[test]
fn authorize_url_round_trips_config() {
    let c = config();
    let url = authorize_url(&c).unwrap();
    assert!(url.starts_with(&format!("{}?", AUTHORIZE_ENDPOINT)));
    let pairs = query_pairs(&url);
    assert_eq!(
        pairs,
        vec![
            pair("client_id", "my client"),
            pair("response_type", "code"),
            pair("redirect_uri", "http://127.0.0.1:8888/callback?x=1&y=2"),
            pair("scope", "user-read-currently-playing user-read-email"),
            pair("state", "abc"),
        ]
    );
    assert!(url.contains("redirect_uri=http%3A%2F%2F127.0.0.1%3A8888%2Fcallback%3Fx%3D1%26y%3D2"));
    assert!(url.contains("scope=user-read-currently-playing+user-read-email"));
    assert!(url.contains("client_id=my+client"));
}

#[test]
fn authorize_params_optional_entries() {
    let mut c = config();
    c.state = None;
    c.show_dialog = true;
    assert_eq!(
        authorize_params(&c),
        vec![
            pair("client_id", "my client"),
            pair("response_type", "code"),
            pair("redirect_uri", "http://127.0.0.1:8888/callback?x=1&y=2"),
            pair("scope", "user-read-currently-playing user-read-email"),
            pair("show_dialog", "true"),
        ]
    );
}

#[test]
fn authorize_url_rejects_relative_redirect() {
    let mut c = config();
    c.redirect_uri = "callback/here".to_string();
    assert_eq!(authorize_url(&c), Err(AuthError::Config));
}

#[test]
fn callback_port_from_redirect_uri() {
    assert_eq!(callback_port("http://127.0.0.1:9000/cb"), Ok(9000));
    assert_eq!(callback_port("http://localhost/callback"), Ok(8888));
    assert_eq!(callback_port("http://localhost:80/callback"), Ok(8888));
    assert_eq!(callback_port("not a url"), Err(AuthError::Config));
    assert_eq!(port_from_parsed(Some(Some(1234))), Ok(1234));
    assert_eq!(port_from_parsed(Some(None)), Ok(DEFAULT_CALLBACK_PORT));
    assert_eq!(port_from_parsed(None), Err(AuthError::Config));
}

#[test]
fn listen_address_is_loopback() {
    assert_eq!(listen_address(8888), "127.0.0.1:8888");
    assert_eq!(listen_address(0), "127.0.0.1:0");
    assert_eq!(listen_address(65535), "127.0.0.1:65535");
}

#[test]
fn decimal_appends() {
    let mut s = "n=".to_string();
    push_decimal(&mut s, 1203);
    assert_eq!(s, "n=1203");
    let mut t = String::new();
    push_decimal(&mut t, u64::MAX);
    assert_eq!(t, u64::MAX.to_string());
}

#[test]
fn request_query_splits_target() {
    assert_eq!(request_query("/callback?code=1&state=x"), "code=1&state=x");
    assert_eq!(request_query("/callback"), "");
    assert_eq!(request_query("/?a=1?b=2"), "a=1");
    assert_eq!(request_query("?"), "");
}

#[test]
fn query_pairs_decodes() {
    assert_eq!(
        query_pairs("/cb?code=a%20b+c&x&&y=%26"),
        vec![pair("code", "a b c"), pair("x", ""), pair("y", "&")]
    );
    assert!(query_pairs("/cb").is_empty());
}

#[test]
fn find_code_takes_first() {
    let pairs = vec![pair("state", "s"), pair("code", "one"), pair("code", "two")];
    assert_eq!(find_code(&pairs), Some("one".to_string()));
    assert_eq!(find_code(&vec![pair("codes", "x")]), None);
    assert_eq!(callback_code("/?error=access_denied"), None);
    assert_eq!(callback_code("/?code=Q%2BR"), Some("Q+R".to_string()));
}

#[test]
fn callback_captures_code() {
    let mut l = CallbackListener::new();
    assert_eq!(l.bound(true), Ok(()));
    assert!(l.receive("/?code=ABC123"));
    assert_eq!(l.finish(), Ok("ABC123".to_string()));
}

#[test]
fn callback_without_code_is_flow_error() {
    let mut l = CallbackListener::new();
    assert_eq!(l.bound(true), Ok(()));
    assert!(l.receive("/?error=access_denied"));
    assert_eq!(l.finish(), Err(AuthError::AuthFlow));
}

#[test]
fn callback_takes_one_request_only() {
    let mut l = CallbackListener::new();
    assert_eq!(l.bound(true), Ok(()));
    assert!(l.receive("/?code=first"));
    assert!(!l.receive("/?code=second"));
    assert_eq!(l.finish(), Ok("first".to_string()));
    assert!(!l.receive("/?code=third"));
    assert_eq!(l.finish(), Err(AuthError::AuthFlow));
}

#[test]
fn callback_bind_failure() {
    let mut l = CallbackListener::new();
    assert_eq!(l.bound(false), Err(AuthError::Bind));
    assert!(!l.receive("/?code=x"));
    assert_eq!(l.finish(), Err(AuthError::AuthFlow));
}

#[test]
fn confirmation_page_text() {
    assert_eq!(CONFIRMATION_PAGE, "<h1>Authorization complete</h1><p>You can close this window.</p>");
}

#[test]
fn token_exchange_success() {
    let t = token_from_response(200, Some("tok".to_string()), Some(3600)).unwrap();
    assert_eq!(t.value, "tok");
    assert_eq!(t.expires_in, Some(3600));
}

#[test]
fn token_exchange_failures() {
    assert_eq!(token_from_response(400, None, None).err(), Some(AuthError::TokenExchange));
    assert_eq!(
        token_from_response(400, Some("tok".to_string()), None).err(),
        Some(AuthError::TokenExchange)
    );
    assert_eq!(token_from_response(200, None, Some(3600)).err(), Some(AuthError::TokenExchange));
}

#[test]
fn playback_no_content() {
    let r = playback_from_response(204, None).unwrap();
    assert!(r.is_none());
    assert_eq!(format_playback(&r), vec!["Nothing is currently playing."]);
}

#[test]
fn playback_api_error() {
    assert_eq!(playback_from_response(500, None).err(), Some(AuthError::Api));
    assert_eq!(playback_from_response(401, track("x", &[], None)).err(), Some(AuthError::Api));
}

#[test]
fn playback_track() {
    let r = playback_from_response(200, track("Song", &["A", "B"], Some("https://x"))).unwrap();
    assert!(matches!(r, Some(PlaybackState { item: Some(PlayableItem::Track { .. }), .. })));
    assert_eq!(format_playback(&r), vec!["Now playing: A, B \u{2014} Song", "Listen here: https://x"]);
}

#[test]
fn playback_episode_and_missing_url() {
    let s = Some(PlaybackState {
        is_playing: true,
        item: Some(PlayableItem::Episode {
            name: "Ep".to_string(),
            show: "Show".to_string(),
            url: None,
        }),
    });
    assert_eq!(format_playback(&s), vec!["Now playing episode: Ep \u{2014} Show", "Listen here: "]);
}

#[test]
fn playback_paused_or_empty() {
    let paused = Some(PlaybackState { is_playing: false, item: None });
    assert_eq!(format_playback(&paused), vec!["Nothing is currently playing."]);
    let empty = Some(PlaybackState { is_playing: true, item: None });
    assert_eq!(format_playback(&empty), vec!["No track or episode found."]);
}

#[test]
fn format_twice_same_output() {
    let s = track("Song", &["A", "B"], Some("https://x"));
    assert_eq!(format_playback(&s), format_playback(&s));
}

#[test]
fn join_with_separators() {
    let v: Vec<String> = vec!["a".to_string(), "b".to_string(), "c".to_string()];
    assert_eq!(join_with(&v, ", "), "a, b, c");
    assert_eq!(join_with(&Vec::new(), ", "), "");
}
