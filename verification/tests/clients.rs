use music_api::domain::oauth_client::{RefreshedTokens, TokenExchangeError};
use music_api::domain::spotify::SpotifyError;
use music_api::infra::http_logging::{
    outbound_line, response_line, transport_error_line, Direction, LogLevel, WireTarget,
};
use music_api::infra::mock_spotify_client::{canned_reply, Fixture, MockSpotifyClient};
use music_api::infra::spotify_client::{
    body_preview, read_status, reply_outcome, request_url, Reading, RequestQuota,
};
use music_api::infra::token_exchanger::{
    code_form, grant_type, mask_optional, mask_token, read_token_status, refresh_form, refusal,
    token_outcome, TokenBody, TokenReading,
};
use music_api::json::{put, Json, Member};
use music_api::time::Duration;

fn error_body(error: Json) -> Json {
    let mut m: Vec<Member> = Vec::new();
    put(&mut m, "error", error);
    Json::Obj(m)
}

#[test]
fn paths_are_routed_without_their_query() {
    let c = MockSpotifyClient::new();
    assert_eq!(c.route("/v1/me"), Ok(Fixture::Me));
    assert_eq!(c.route("/v1/me/following?type=artist&limit=1"), Ok(Fixture::MeFollowing));
    assert_eq!(c.route("/v1/me/following?limit=2"), Ok(Fixture::MeFollowing));
    assert_eq!(c.route("/v1/me/playlists?limit=20"), Ok(Fixture::MePlaylists));
    assert_eq!(c.route("/v1/me/player"), Ok(Fixture::MePlayer));
    assert_eq!(c.route("/v1/me/player/recently-played?limit=20"), Ok(Fixture::MePlayerRecent));
    assert_eq!(c.route("/v1/me/top/tracks?a?b"), Ok(Fixture::MeTopTracks));
    assert_eq!(c.route("/v1/you"), Err(SpotifyError::Status(404)));
    assert_eq!(MockSpotifyClient::default().route(""), Err(SpotifyError::Status(404)));
}

#[test]
fn canned_replies() {
    assert_eq!(canned_reply(Ok(Json::Null)), Ok(Some(Json::Null)));
    assert_eq!(
        canned_reply(Err("eof".to_string())),
        Err(SpotifyError::Decode("mock fixture parse: eof".to_string()))
    );
}

#[test]
fn the_quota_is_thirty_a_burst_and_one_a_second() {
    let q = RequestQuota::production();
    assert_eq!(q.burst, 30);
    assert_eq!(q.period, Duration::from_secs(1));
}

#[test]
fn upstream_replies() {
    assert_eq!(
        request_url("https://api.spotify.com", "/v1/me?x=1"),
        "https://api.spotify.com/v1/me?x=1"
    );
    assert_eq!(read_status(200), Reading::Body);
    assert_eq!(read_status(204), Reading::NoContent);
    assert_eq!(read_status(304), Reading::Failed(SpotifyError::Status(304)));
    assert_eq!(reply_outcome(Ok(200), Some(Ok(Json::Null))), Ok(Some(Json::Null)));
    assert_eq!(reply_outcome(Ok(204), None), Ok(None));
    assert_eq!(reply_outcome(Ok(401), None), Err(SpotifyError::Status(401)));
    assert_eq!(
        reply_outcome(Ok(200), Some(Err("bad".to_string()))),
        Err(SpotifyError::Decode("bad".to_string()))
    );
    assert_eq!(
        reply_outcome(Err("refused".to_string()), None),
        Err(SpotifyError::Transport("refused".to_string()))
    );
}

#[test]
fn error_bodies_are_cut_for_the_log() {
    assert_eq!(body_preview("short"), "short");
    let long = "ä".repeat(300);
    assert_eq!(body_preview(&long), "ä".repeat(256));
}

#[test]
fn upstream_failures_in_words() {
    assert_eq!(
        SpotifyError::Transport("x".to_string()).message(),
        "spotify transport error: x"
    );
    assert_eq!(SpotifyError::Status(503).message(), "spotify returned status 503");
    assert_eq!(
        SpotifyError::Decode("x".to_string()).message(),
        "spotify response decode failed: x"
    );
}

#[test]
fn token_failures_in_words() {
    assert_eq!(
        TokenExchangeError::InvalidGrant.message(),
        "refresh token rejected (invalid_grant) — reauthorization required"
    );
    assert_eq!(
        TokenExchangeError::Transport("x".to_string()).message(),
        "token endpoint transport error: x"
    );
    assert_eq!(TokenExchangeError::Status(500).message(), "token endpoint returned status 500");
    assert_eq!(
        TokenExchangeError::Decode("x".to_string()).message(),
        "token endpoint response decode failed: x"
    );
}

#[test]
fn forms_of_the_grants() {
    let pairs = |form: Vec<(String, String)>| {
        form.into_iter().map(|(k, v)| format!("{k}={v}")).collect::<Vec<String>>()
    };
    let form = refresh_form("R");
    assert_eq!(grant_type(&form), "refresh_token");
    assert_eq!(pairs(form), ["grant_type=refresh_token", "refresh_token=R"]);
    let form = code_form("C", "https://cb");
    assert_eq!(grant_type(&form), "authorization_code");
    assert_eq!(
        pairs(form),
        ["grant_type=authorization_code", "code=C", "redirect_uri=https://cb"]
    );
    assert_eq!(grant_type(&Vec::new()), "");
}

#[test]
fn token_replies() {
    let tokens = || RefreshedTokens {
        access_token: "A".to_string(),
        refresh_token: None,
        expires_in: 3600,
        scope: None,
    };
    assert_eq!(read_token_status(200), TokenReading::Tokens);
    assert_eq!(read_token_status(400), TokenReading::Refusal);
    assert_eq!(
        read_token_status(500),
        TokenReading::Failed(TokenExchangeError::Status(500))
    );
    assert_eq!(token_outcome(Ok(200), TokenBody::Tokens(Ok(tokens()))), Ok(tokens()));
    assert_eq!(
        token_outcome(Ok(200), TokenBody::Tokens(Err("eof".to_string()))),
        Err(TokenExchangeError::Decode("eof".to_string()))
    );
    assert_eq!(
        token_outcome(Ok(400), TokenBody::Refusal(Ok(error_body(Json::text("invalid_grant"))))),
        Err(TokenExchangeError::InvalidGrant)
    );
    assert_eq!(
        token_outcome(Ok(400), TokenBody::Refusal(Err("eof".to_string()))),
        Err(TokenExchangeError::Decode("eof".to_string()))
    );
    assert_eq!(
        token_outcome(Ok(503), TokenBody::Unread),
        Err(TokenExchangeError::Status(503))
    );
    assert_eq!(
        token_outcome(Err("refused".to_string()), TokenBody::Unread),
        Err(TokenExchangeError::Transport("refused".to_string()))
    );
}

#[test]
fn only_an_invalid_grant_is_final() {
    assert_eq!(
        refusal(&error_body(Json::text("invalid_grant"))),
        TokenExchangeError::InvalidGrant
    );
    assert_eq!(
        refusal(&error_body(Json::text("invalid_request"))),
        TokenExchangeError::Status(400)
    );
    assert_eq!(refusal(&error_body(Json::Null)), TokenExchangeError::Status(400));
    assert_eq!(refusal(&Json::Null), TokenExchangeError::Status(400));
}

#[test]
fn tokens_are_masked_for_the_log() {
    assert_eq!(mask_token(""), "***");
    assert_eq!(mask_token("12345678"), "***");
    assert_eq!(mask_token("123456789"), "123456…(len=9)");
    assert_eq!(mask_token("123456abc"), mask_token("123456xyz"));
    assert_eq!(mask_token("ääääx"), "äää…(len=9)");
    assert_eq!(mask_optional(&None), "<absent>");
    assert_eq!(mask_optional(&Some("short".to_string())), "***");
}

#[test]
fn outbound_log_lines() {
    let line = outbound_line(WireTarget::SpotifyHttp, "GET", "https://x/");
    assert_eq!(line.target, "music_api::wire::spotify_http");
    assert_eq!(line.message, "outbound http");
    assert_eq!(line.direction, Some(Direction::There));
    let line =
        response_line(WireTarget::SpotifyOAuthHttp, "POST", "https://x/", 503, Some(7), 12);
    assert_eq!(line.target, "music_api::wire::spotify_oauth_http");
    assert_eq!(line.level, LogLevel::Info);
    assert_eq!(line.body, None);
    assert_eq!((line.status, line.length, line.elapsed_ms), (Some(503), Some(7), Some(12)));
    let line = transport_error_line(
        WireTarget::SpotifyHttp,
        "GET",
        "https://x/",
        "refused",
        3,
    );
    assert_eq!(line.level, LogLevel::Warn);
    assert_eq!(line.error, Some("refused".to_string()));
    assert_eq!(line.message, "outbound http error (transport)");
}
