//! The health report. It is always served with status 200: the body says
//! how things stand.

use vstd::prelude::*;

use crate::domain::tokens::{RepoError, TokenRecord};
use crate::json::{put, Json, JsonView, Member};
use crate::routes::reply::{self, json_reply, Reply};

verus! {

/// How things stand.
#[derive(Debug, PartialEq)]
pub struct Health {
    pub status: &'static str,
    pub version: &'static str,
    pub token_state: &'static str,
    pub last_fetch_ts: Option<String>,
    /// Canned data is served.
    pub mock_mode: bool,
}

/// Whether the owner must authorize again, in a word.
pub open spec fn status_of(needs_reauth: bool) -> Seq<char> {
    if needs_reauth {
        "needs_reauth"@
    } else {
        "ok"@
    }
}

/// What reading the stored token gave, in a word.
pub open spec fn token_state_of(token: Result<Option<TokenRecord>, RepoError>) -> Seq<char> {
    match token {
        Ok(Some(_)) => "authorized"@,
        Ok(None) => "uninitialized"@,
        Err(_) => "unknown"@,
    }
}

/// Report how things stand, given what reading the stored token gave and
/// the authorization flag.
pub fn health(
    version: &'static str,
    token: &Result<Option<TokenRecord>, RepoError>,
    needs_reauth: bool,
    mock_mode: bool,
) -> (h: Health)
    ensures
        h.status@ == status_of(needs_reauth),
        h.version == version,
        h.token_state@ == token_state_of(*token),
        h.last_fetch_ts is None,
        h.mock_mode == mock_mode,
{
    Health {
        status: if needs_reauth {
            "needs_reauth"
        } else {
            "ok"
        },
        version,
        token_state: match token {
            Ok(Some(_)) => "authorized",
            Ok(None) => "uninitialized",
            Err(_) => "unknown",
        },
        last_fetch_ts: None,
        mock_mode,
    }
}

/// The health report as JSON.
pub open spec fn health_json(
    status: Seq<char>,
    version: Seq<char>,
    token_state: Seq<char>,
    mock_mode: bool,
) -> JsonView {
    JsonView::Obj(
        map![
            "status"@ => JsonView::Str(status),
            "version"@ => JsonView::Str(version),
            "token_state"@ => JsonView::Str(token_state),
            "last_fetch_ts"@ => JsonView::Null,
            "mock_mode"@ => JsonView::Bool(mock_mode),
        ],
    )
}

/// Answer a request for the health report: status 200, however things
/// stand.
pub fn health_reply(
    version: &'static str,
    token: &Result<Option<TokenRecord>, RepoError>,
    needs_reauth: bool,
    mock_mode: bool,
) -> (r: Reply)
    ensures
        r@ == reply::with_json(
            200,
            health_json(status_of(needs_reauth), version@, token_state_of(*token), mock_mode),
        ),
{
    let h = health(version, token, needs_reauth, mock_mode);
    let mut m: Vec<Member> = Vec::new();
    put(&mut m, "status", Json::text(h.status));
    put(&mut m, "version", Json::text(h.version));
    put(&mut m, "token_state", Json::text(h.token_state));
    put(
        &mut m,
        "last_fetch_ts",
        match h.last_fetch_ts {
            Some(ts) => Json::Str(ts),
            None => Json::Null,
        },
    );
    put(&mut m, "mock_mode", Json::Bool(h.mock_mode));
    json_reply(200, Json::Obj(m))
}

} // verus!
