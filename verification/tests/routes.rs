use music_api::app::scheduler::FetchError;
use music_api::app::snapshots::{EndpointKind, Snapshots};
use music_api::app::state_store::StateStore;
use music_api::config::{Config, SchedulerConfig};
use music_api::domain::oauth_client::{RefreshedTokens, TokenExchangeError};
use music_api::domain::spotify::SpotifyError;
use music_api::domain::spotify_toggle::SpotifyToggle;
use music_api::domain::tokens::{RepoError, TokenRecord};
use music_api::json::{put, Json, Member};
use music_api::oauth::build_authorize_url;
use music_api::routes::admin::{disable_spotify, enable_spotify, get_spotify};
use music_api::routes::auth::{
    basic_auth_ok, callback_begin, callback_start, callback_step, login, login_with, unauthorized,
    CallbackAction, CallbackEvent, CallbackQuery, CallbackState, Credentials,
};
use music_api::routes::cors::{allowed_methods, origin_header_allowed};
use music_api::infra::http_logging::{Direction, LogLevel};
use music_api::routes::health::{health, health_reply};
use music_api::routes::reply::{Body, Reply};
use music_api::routes::v1::{fetch_error_to_response, serve, serve_fetched, Serve};
use music_api::routes::wire::{
    endpoint_request, endpoint_response, frontend_request, relay, Relay, BUFFER_LIMIT,
};
use music_api::time::Timestamp;

fn config() -> Config {
    Config {
        owner_spotify_user_id: "owner-id".to_string(),
        auth_basic_username: "owner".to_string(),
        auth_basic_password: "s3cret".to_string(),
        spotify_client_id: "client id&1".to_string(),
        spotify_client_secret: "hidden".to_string(),
        spotify_redirect_uri: "https://example.com/cb?x=ü".to_string(),
        database_url: "sqlite::memory:".to_string(),
        mock_data: false,
        scheduler: SchedulerConfig::default(),
    }
}

fn credentials(username: &str, password: &str) -> Option<Credentials> {
    Some(Credentials { username: username.to_string(), password: password.to_string() })
}

fn one(key: &str, value: Json) -> Json {
    let mut m: Vec<Member> = Vec::new();
    put(&mut m, key, value);
    Json::Obj(m)
}

fn text(status: u16, s: &str) -> Reply {
    Reply { status, headers: Vec::new(), body: Body::Text(s.to_string()) }
}

fn json(status: u16, j: Json) -> Reply {
    Reply { status, headers: Vec::new(), body: Body::Json(j) }
}

const URL: &str = "https://accounts.spotify.com/authorize?response_type=code\
    &client_id=client+id%261&redirect_uri=https%3A%2F%2Fexample.com%2Fcb%3Fx%3D%C3%BC\
    &scope=user-read-playback-state+user-read-recently-played+user-top-read\
    +user-read-private+playlist-read-private+user-follow-read&state=";

#[test]
fn the_authorization_address_is_encoded() {
    assert_eq!(build_authorize_url(&config(), "00ff"), format!("{URL}00ff"));
    assert_eq!(build_authorize_url(&config(), "a b~*-._/"), format!("{URL}a+b%7E*-._%2F"));
}

#[test]
fn credentials_must_match_both_ways() {
    let c = config();
    assert!(basic_auth_ok(&c, &credentials("owner", "s3cret")));
    assert!(!basic_auth_ok(&c, &credentials("owner", "s3cre")));
    assert!(!basic_auth_ok(&c, &credentials("owner", "s3cret ")));
    assert!(!basic_auth_ok(&c, &credentials("owner", "S3cret")));
    assert!(!basic_auth_ok(&c, &credentials("owner", "")));
    assert!(!basic_auth_ok(&c, &credentials("someone", "s3cret")));
    assert!(!basic_auth_ok(&c, &None));
}

#[test]
fn the_unauthorized_are_challenged() {
    let r = unauthorized();
    assert_eq!(r.status, 401);
    assert_eq!(
        r.headers,
        [("www-authenticate".to_string(), "Basic realm=\"music-api\"".to_string())]
    );
    assert_eq!(r.body, Body::Text("unauthorized".to_string()));
}

#[test]
fn a_login_redirects_with_the_state() {
    let r = login_with(&config(), "00ff");
    assert_eq!(r.status, 302);
    assert_eq!(
        r.headers,
        [
            ("location".to_string(), format!("{URL}00ff")),
            (
                "set-cookie".to_string(),
                "oauth_state=00ff; HttpOnly; Path=/; Max-Age=600; SameSite=Lax".to_string()
            ),
        ]
    );
    assert_eq!(r.body, Body::Empty);
}

#[test]
fn a_login_issues_a_live_state() {
    let c = config();
    let mut store = StateStore::new();
    assert_eq!(login(&c, &mut store, &None), unauthorized());
    let r = login(&c, &mut store, &credentials("owner", "s3cret"));
    assert_eq!(r.status, 302);
    let state = r.headers[0].1.strip_prefix(URL).unwrap().to_string();
    assert_eq!(state.len(), 32);
    let query = CallbackQuery { code: "C".to_string(), state: state.clone() };
    let (_, action) = callback_start(&c, &mut store, &query);
    match action {
        CallbackAction::Exchange { code, redirect_uri } => {
            assert_eq!(code, "C");
            assert_eq!(redirect_uri, c.spotify_redirect_uri);
        }
        _ => panic!("expected the exchange"),
    }
    // The same callback a second time.
    let (_, action) = callback_start(&c, &mut store, &query);
    assert_eq!(response(action), (text(400, "state mismatch"), false));
}

fn response(action: CallbackAction) -> (Reply, bool) {
    match action {
        CallbackAction::Respond { reply, lower_flag } => (reply, lower_flag),
        _ => panic!("expected a response"),
    }
}

const NOW: Timestamp = Timestamp { secs: 1000, nanos: 5 };

/// Run a callback through: exchange, profile, storage.
fn callback(
    exchanged: Result<RefreshedTokens, TokenExchangeError>,
    profile: Result<Option<Json>, SpotifyError>,
    stored: Result<(), RepoError>,
) -> (Option<TokenRecord>, Reply, bool) {
    let c = config();
    let query = CallbackQuery { code: "C".to_string(), state: "S".to_string() };
    let (mut state, mut action) = callback_begin(true, &c, &query);
    let (mut exchanged, mut profile, mut stored) = (Some(exchanged), Some(profile), Some(stored));
    let mut record = None;
    loop {
        let event = match action {
            CallbackAction::Exchange { .. } => CallbackEvent::Exchanged(exchanged.take().unwrap()),
            CallbackAction::FetchProfile(access) => {
                assert_eq!(access, "A");
                CallbackEvent::Identified { profile: profile.take().unwrap(), now: NOW }
            }
            CallbackAction::Store(r) => {
                record = Some(r);
                CallbackEvent::Stored(stored.take().unwrap())
            }
            CallbackAction::Respond { reply, lower_flag } => {
                assert!(matches!(state, CallbackState::Finished));
                return (record, reply, lower_flag);
            }
        };
        (state, action) = callback_step(&c, state, event);
    }
}

fn tokens() -> RefreshedTokens {
    RefreshedTokens {
        access_token: "A".to_string(),
        refresh_token: Some("R".to_string()),
        expires_in: 3600,
        scope: None,
    }
}

fn profile_of(id: &str) -> Result<Option<Json>, SpotifyError> {
    Ok(Some(one("id", Json::text(id))))
}

#[test]
fn the_owner_is_linked() {
    let (record, reply, lower_flag) = callback(Ok(tokens()), profile_of("owner-id"), Ok(()));
    assert_eq!(
        record,
        Some(TokenRecord {
            access_token: "A".to_string(),
            refresh_token: "R".to_string(),
            expires_at: Timestamp { secs: 4600, nanos: 5 },
            scope: String::new(),
            owner_id: "owner-id".to_string(),
        })
    );
    assert_eq!(reply, text(200, "Spotify linked. You can close this tab."));
    assert!(lower_flag);
}

#[test]
fn a_failed_exchange_is_a_bad_gateway() {
    let end = callback(Err(TokenExchangeError::InvalidGrant), profile_of("owner-id"), Ok(()));
    assert_eq!(end, (None, text(502, "token exchange failed"), false));
}

#[test]
fn a_failed_profile_is_a_bad_gateway() {
    let expected = (None, text(502, "profile fetch failed"), false);
    assert_eq!(callback(Ok(tokens()), Ok(None), Ok(())), expected);
    let expected = (None, text(502, "profile fetch failed"), false);
    assert_eq!(callback(Ok(tokens()), Err(SpotifyError::Status(401)), Ok(())), expected);
}

#[test]
fn nobody_but_the_owner_is_linked() {
    let end = callback(Ok(tokens()), profile_of("someone"), Ok(()));
    assert_eq!(end, (None, text(403, "not the owner"), false));
    let end = callback(Ok(tokens()), Ok(Some(Json::Null)), Ok(()));
    assert_eq!(end, (None, text(403, "not the owner"), false));
}

#[test]
fn a_storage_failure_keeps_the_flag() {
    let (record, reply, lower_flag) = callback(
        Ok(tokens()),
        profile_of("owner-id"),
        Err(RepoError::Backend("full".to_string())),
    );
    assert!(record.is_some());
    assert_eq!(reply, text(500, "could not store tokens"));
    assert!(!lower_flag);
}

#[test]
fn a_callback_without_a_live_state_is_refused() {
    let c = config();
    let mut store = StateStore::new();
    let query = CallbackQuery { code: "C".to_string(), state: "never-issued".to_string() };
    let (state, action) = callback_start(&c, &mut store, &query);
    assert!(matches!(state, CallbackState::Finished));
    assert_eq!(response(action), (text(400, "state mismatch"), false));
}

#[test]
fn the_switch_obeys_the_owner_only() {
    let c = config();
    let owner = credentials("owner", "s3cret");
    let stranger = credentials("owner", "guess");
    let mut t = SpotifyToggle::new();
    assert_eq!(get_spotify(&c, &t, &owner), json(200, one("enabled", Json::Bool(true))));
    assert_eq!(get_spotify(&c, &t, &stranger), unauthorized());

    assert_eq!(disable_spotify(&c, &mut t, &stranger), unauthorized());
    assert!(t.is_enabled());
    assert_eq!(
        disable_spotify(&c, &mut t, &owner),
        json(200, one("enabled", Json::Bool(false)))
    );
    assert!(!t.is_enabled());
    assert_eq!(get_spotify(&c, &t, &owner), json(200, one("enabled", Json::Bool(false))));

    assert_eq!(enable_spotify(&c, &mut t, &None), unauthorized());
    assert!(!t.is_enabled());
    assert_eq!(
        enable_spotify(&c, &mut t, &owner),
        json(200, one("enabled", Json::Bool(true)))
    );
    assert!(t.is_enabled());
}

fn answer(decision: Serve) -> Option<Reply> {
    match decision {
        Serve::Answer(reply) => Some(reply),
        Serve::Fetch => None,
    }
}

#[test]
fn requests_are_answered_from_the_snapshot() {
    let kind = EndpointKind::Recent;
    let mut s = Snapshots::new();
    assert_eq!(answer(serve(kind, false, true, &s)), None);
    assert_eq!(
        answer(serve(kind, false, false, &s)),
        Some(json(503, one("error", Json::text("upstream_unavailable"))))
    );
    assert_eq!(serve_fetched(kind, &mut s, Ok(Json::count(1))), json(200, Json::count(1)));
    assert_eq!(answer(serve(kind, false, true, &s)), Some(json(200, Json::count(1))));
    assert_eq!(answer(serve(kind, false, false, &s)), Some(json(200, Json::count(1))));
    assert_eq!(answer(serve(EndpointKind::Top, false, true, &s)), None);
}

#[test]
fn nothing_is_served_while_the_owner_must_authorize() {
    let refused = || Some(json(503, one("error", Json::text("needs_reauth"))));
    let mut s = Snapshots::new();
    assert_eq!(answer(serve(EndpointKind::Now, true, true, &s)), refused());
    s.set(EndpointKind::Now, Some(Json::Null));
    assert_eq!(answer(serve(EndpointKind::Now, true, true, &s)), refused());
}

#[test]
fn failed_fetches_change_no_snapshot() {
    let mut s = Snapshots::new();
    let ends = [
        (FetchError::NeedsReauth, 503, "needs_reauth"),
        (FetchError::Upstream("x".to_string()), 503, "upstream_unavailable"),
        (FetchError::Repo("x".to_string()), 500, "repo"),
    ];
    for (e, status, name) in ends {
        let expected = json(status, one("error", Json::text(name)));
        assert_eq!(fetch_error_to_response(&e), expected);
        assert_eq!(serve_fetched(EndpointKind::Now, &mut s, Err(e)), expected);
        assert_eq!(s.get(EndpointKind::Now), None);
    }
}

#[test]
fn health_reports_token_and_flag() {
    let token = TokenRecord {
        access_token: "A".to_string(),
        refresh_token: "R".to_string(),
        expires_at: NOW,
        scope: String::new(),
        owner_id: "o".to_string(),
    };
    let h = health("1.0", &Ok(Some(token)), false, false);
    assert_eq!((h.status, h.version, h.token_state), ("ok", "1.0", "authorized"));
    assert_eq!((h.last_fetch_ts, h.mock_mode), (None, false));
    let h = health("1.0", &Ok(None), true, true);
    assert_eq!((h.status, h.token_state, h.mock_mode), ("needs_reauth", "uninitialized", true));
    let h = health("1.0", &Err(RepoError::Backend("x".to_string())), false, false);
    assert_eq!(h.token_state, "unknown");
}

#[test]
fn origins() {
    for origin in [
        "https://yudhyapw.com",
        "https://www.yudhyapw.com",
        "http://127.0.0.1:3000",
        "http://localhost:8080",
        "http://localhost:",
    ] {
        assert!(origin_header_allowed(origin.as_bytes()));
    }
    for origin in [
        "http://yudhyapw.com",
        "https://yudhyapw.com.evil.example",
        "https://evil.example",
        "https://localhost:8080",
        "http://localhost",
        "http://localhost:3000/ü",
        "http://localhost:\n",
        "",
    ] {
        assert!(!origin_header_allowed(origin.as_bytes()));
    }
}

#[test]
fn pages_may_only_get() {
    assert_eq!(allowed_methods(), ["GET"]);
}

#[test]
fn health_is_answered_200_whatever_it_says() {
    for token in [Ok(None), Err(RepoError::Backend("x".to_string()))] {
        let r = health_reply("1.0", &token, true, true);
        assert_eq!(r.status, 200);
        let Body::Json(body) = r.body else { panic!("expected JSON") };
        let h = health("1.0", &token, true, true);
        assert_eq!(body.get("status").unwrap().as_str(), Some("needs_reauth"));
        assert_eq!(body.get("version").unwrap().as_str(), Some("1.0"));
        assert_eq!(body.get("token_state").unwrap().as_str(), Some(h.token_state));
        assert_eq!(body.get("last_fetch_ts"), Some(&Json::Null));
        assert_eq!(body.get("mock_mode"), Some(&Json::Bool(true)));
    }
}

#[test]
fn endpoint_log_lines() {
    let line = endpoint_request(EndpointKind::Now);
    assert_eq!((line.endpoint, line.direction), (EndpointKind::Now, Direction::There));
    let (shown, summary) = endpoint_response(EndpointKind::Top, 503, "\"ü\"");
    assert_eq!(shown.level, LogLevel::Debug);
    assert_eq!(shown.body, Some("\"ü\"".to_string()));
    assert_eq!(summary.level, LogLevel::Info);
    assert_eq!((summary.status, summary.bytes, summary.body), (Some(503), Some(4), None));
}

#[test]
fn the_authorization_query_reads_back() {
    let address = build_authorize_url(&config(), "a&b=c+d%");
    let url = url::Url::parse(&address).unwrap();
    let pairs: Vec<(String, String)> = url.query_pairs().into_owned().collect();
    assert_eq!(pairs[1], ("client_id".to_string(), "client id&1".to_string()));
    assert_eq!(pairs[2].1, "https://example.com/cb?x=ü");
    assert_eq!(pairs[4], ("state".to_string(), "a&b=c+d%".to_string()));
    assert_eq!(pairs.len(), 5);
}

#[test]
fn frontend_log_lines() {
    assert_eq!(BUFFER_LIMIT, 10 * 1024 * 1024);
    let line = frontend_request("GET", "/v1/now");
    assert_eq!((line.target, line.message), ("music_api::wire::fe", "frontend request"));
    match relay("GET", "/v1/now", 200, Ok(&[0xc3, 0xbc, 0xff, b'a']), 3) {
        Relay::Relay(shown, line) => {
            assert_eq!(shown.level, LogLevel::Debug);
            assert_eq!(shown.body, Some("ü\u{fffd}a".to_string()));
            assert_eq!((line.status, line.length, line.elapsed_ms), (Some(200), Some(4), Some(3)));
        }
        Relay::Replace(_, _) => panic!("expected the response itself"),
    }
    match relay("GET", "/v1/now", 200, Err("too long".to_string()), 3) {
        Relay::Replace(reply, line) => {
            assert_eq!(reply, text(500, "log buffer failed"));
            assert_eq!(line.error, Some("too long".to_string()));
            assert_eq!(line.direction, None);
        }
        Relay::Relay(_, _) => panic!("expected a replacement"),
    }
}
