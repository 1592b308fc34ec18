//! What the data plane, the switch, the health report and the doors answer,
//! in terms of what is stored and of what the client sent.

use vstd::prelude::*;
use vstd::utf8::*;

use crate::app::scheduler::FetchError;
use crate::app::snapshots::{EndpointKind, Snapshots};
use crate::config::Config;
use crate::domain::spotify_toggle::SpotifyToggle;
use crate::domain::tokens::{RepoError, TokenRecord};
use crate::infra::http_logging::{Direction, WireLine};
use crate::json::{Json, JsonView};
use crate::json_laws;
use crate::routes::admin::{disable_spotify, enable_spotify, get_spotify};
use crate::routes::auth::Credentials;
use crate::routes::cors::{self, allowed_methods, origin_header_allowed};
use crate::routes::health::{health, health_reply, Health};
use crate::routes::reply::{Body, BodyView, Reply, ReplyView};
use crate::routes::v1::{fetch_error_to_response, serve, serve_fetched, Serve};
use crate::routes::wire::{
    endpoint_request, endpoint_response, frontend_request, relay, EndpointLine, Relay,
};

verus! {

/// The response names a failure.
pub open spec fn refuses(r: ReplyView, status: u16, name: Seq<char>) -> bool {
    &&& r.status == status
    &&& r.headers.len() == 0
    &&& r.body matches BodyView::Json(j) && json_laws::at(j, "error"@) == JsonView::Str(name)
        && json_laws::keys_of(j) =~= set!["error"@]
}

/// The response is this JSON.
pub open spec fn gives(r: ReplyView, body: JsonView) -> bool {
    &&& r.status == 200
    &&& r.headers.len() == 0
    &&& r.body == BodyView::Json(body)
}

/// What is stored under an endpoint.
pub open spec fn cell_of(s: Snapshots, kind: EndpointKind) -> Option<Json> {
    match kind {
        EndpointKind::Now => s.now,
        EndpointKind::Recent => s.recent,
        EndpointKind::Top => s.top,
        EndpointKind::Profile => s.profile,
        EndpointKind::Playlists => s.playlists,
    }
}

/// A request is refused while the owner must authorize again; otherwise it
/// is given the very payload that is stored for its endpoint. Where none
/// is, upstream is asked if the switch is on, and the request is refused if
/// it is off.
pub proof fn requests_get_what_is_stored(
    kind: EndpointKind,
    needs_reauth: bool,
    enabled: bool,
    snapshots: &Snapshots,
    decision: Serve,
)
    requires
        call_ensures(serve, (kind, needs_reauth, enabled, snapshots), decision),
    ensures
        needs_reauth ==> (decision matches Serve::Answer(r) && refuses(r@, 503, "needs_reauth"@)),
        !needs_reauth && cell_of(*snapshots, kind) is Some ==> (decision matches Serve::Answer(r)
            && gives(r@, cell_of(*snapshots, kind)->0@)),
        !needs_reauth && cell_of(*snapshots, kind) is None && enabled ==> decision is Fetch,
        !needs_reauth && cell_of(*snapshots, kind) is None && !enabled ==> (decision
            matches Serve::Answer(r) && refuses(r@, 503, "upstream_unavailable"@)),
{
}

/// Each failure of a fetch is answered in its own way.
pub proof fn failures_are_answered(e: &FetchError, r: Reply)
    requires
        call_ensures(fetch_error_to_response, (e,), r),
    ensures
        *e is NeedsReauth ==> refuses(r@, 503, "needs_reauth"@),
        *e is Upstream ==> refuses(r@, 503, "upstream_unavailable"@),
        *e is Repo ==> refuses(r@, 500, "repo"@),
{
}

/// A payload that was fetched is given as it is, and stored under its
/// endpoint; a failure is answered and stores nothing. The other endpoints
/// keep what they have.
pub proof fn fetched_payloads_are_given_and_stored(
    kind: EndpointKind,
    snapshots: &mut Snapshots,
    fetched: Result<Json, FetchError>,
    r: Reply,
    other: EndpointKind,
)
    requires
        call_ensures(serve_fetched, (kind, snapshots, fetched), r),
    ensures
        fetched matches Ok(payload) ==> gives(r@, payload@) && (cell_of(
            *final(snapshots),
            kind,
        ) matches Some(j) && j@ == payload@),
        fetched matches Err(FetchError::NeedsReauth) ==> refuses(r@, 503, "needs_reauth"@),
        fetched matches Err(FetchError::Upstream(_)) ==> refuses(r@, 503, "upstream_unavailable"@),
        fetched matches Err(FetchError::Repo(_)) ==> refuses(r@, 500, "repo"@),
        fetched is Err || other != kind ==> same_payload(
            cell_of(*old(snapshots), other),
            cell_of(*final(snapshots), other),
        ),
{
    assert(final(snapshots).stored(kind) is Some == cell_of(*final(snapshots), kind) is Some);
    assert(final(snapshots).stored(other) is Some == cell_of(*final(snapshots), other) is Some);
    assert(old(snapshots).stored(other) is Some == cell_of(*old(snapshots), other) is Some);
}

/// The two mean the same, or there is neither.
pub open spec fn same_payload(a: Option<Json>, b: Option<Json>) -> bool {
    match (a, b) {
        (Some(a), Some(b)) => a@ == b@,
        (None, None) => true,
        _ => false,
    }
}

/// What is stored under an endpoint is what was stored there: each has its
/// own place.
pub proof fn each_endpoint_has_its_place(
    s: &Snapshots,
    kind: EndpointKind,
    payload: Option<Json>,
    cell: &Option<Json>,
)
    requires
        call_ensures(Snapshots::get, (s, kind), payload),
        call_ensures(Snapshots::cell, (s, kind), cell),
    ensures
        payload is Some <==> cell_of(*s, kind) is Some,
        payload is Some ==> payload->0@ == cell_of(*s, kind)->0@,
        *cell == cell_of(*s, kind),
{
}

/// At the start nothing is stored.
pub proof fn nothing_is_stored_at_first(s: Snapshots, kind: EndpointKind)
    requires
        call_ensures(Snapshots::new, (), s),
    ensures
        cell_of(s, kind) is None,
{
    assert(s.stored(kind) is None);
}

/// The owner is told where the switch stands; nobody else is.
pub proof fn the_owner_is_told_about_the_switch(
    config: &Config,
    toggle: &SpotifyToggle,
    auth: &Option<Credentials>,
    r: Reply,
)
    requires
        call_ensures(get_spotify, (config, toggle, auth), r),
    ensures
        ({
            let owner = auth matches Some(c) && c.username@ == config.auth_basic_username@
                && c.password@ == config.auth_basic_password@;
            &&& owner ==> gives(
                r@,
                JsonView::Obj(map!["enabled"@ => JsonView::Bool(toggle@)]),
            )
            &&& !owner ==> r.status == 401
        }),
{
}

/// The switch after a request to put it to `to`, and the answer: the owner
/// moves it there and is told so; nobody else moves it.
pub open spec fn puts_the_switch(
    config: Config,
    auth: Option<Credentials>,
    before: bool,
    after: bool,
    to: bool,
    r: ReplyView,
) -> bool {
    let owner = auth matches Some(c) && c.username@ == config.auth_basic_username@ && c.password@
        == config.auth_basic_password@;
    &&& owner ==> after == to && gives(r, JsonView::Obj(map!["enabled"@ => JsonView::Bool(to)]))
    &&& !owner ==> after == before && r.status == 401
}

/// The owner can put the switch on.
pub proof fn the_owner_puts_it_on(
    config: &Config,
    toggle: &mut SpotifyToggle,
    auth: &Option<Credentials>,
    r: Reply,
)
    requires
        call_ensures(enable_spotify, (config, toggle, auth), r),
    ensures
        puts_the_switch(*config, *auth, old(toggle)@, final(toggle)@, true, r@),
{
}

/// The owner can put the switch off.
pub proof fn the_owner_puts_it_off(
    config: &Config,
    toggle: &mut SpotifyToggle,
    auth: &Option<Credentials>,
    r: Reply,
)
    requires
        call_ensures(disable_spotify, (config, toggle, auth), r),
    ensures
        puts_the_switch(*config, *auth, old(toggle)@, final(toggle)@, false, r@),
{
}

proof fn lemma_health_keys()
    ensures
        "status"@ != "version"@,
        "status"@ != "token_state"@,
        "status"@ != "last_fetch_ts"@,
        "status"@ != "mock_mode"@,
        "version"@ != "token_state"@,
        "version"@ != "last_fetch_ts"@,
        "version"@ != "mock_mode"@,
        "token_state"@ != "last_fetch_ts"@,
        "token_state"@ != "mock_mode"@,
        "last_fetch_ts"@ != "mock_mode"@,
{
    reveal_strlit("status");
    reveal_strlit("version");
    reveal_strlit("token_state");
    reveal_strlit("last_fetch_ts");
    reveal_strlit("mock_mode");
    assert("status"@.len() != "version"@.len());
    assert("status"@.len() != "token_state"@.len());
    assert("status"@.len() != "last_fetch_ts"@.len());
    assert("status"@.len() != "mock_mode"@.len());
    assert("version"@.len() != "token_state"@.len());
    assert("version"@.len() != "last_fetch_ts"@.len());
    assert("version"@.len() != "mock_mode"@.len());
    assert("token_state"@.len() != "last_fetch_ts"@.len());
    assert("token_state"@.len() != "mock_mode"@.len());
    assert("last_fetch_ts"@.len() != "mock_mode"@.len());
}

/// The health report is always given, and says whether the owner must
/// authorize again, whether a token is stored, and whether data is canned.
pub proof fn health_is_always_given(
    version: &'static str,
    token: &Result<Option<TokenRecord>, RepoError>,
    needs_reauth: bool,
    mock_mode: bool,
    r: Reply,
)
    requires
        call_ensures(health_reply, (version, token, needs_reauth, mock_mode), r),
    ensures
        r.status == 200,
        r@.body is Json,
        ({
            let j = r@.body->Json_0;
            &&& json_laws::at(j, "status"@) == JsonView::Str(
                if needs_reauth {
                    "needs_reauth"@
                } else {
                    "ok"@
                },
            )
            &&& json_laws::at(j, "version"@) == JsonView::Str(version@)
            &&& json_laws::at(j, "token_state"@) == JsonView::Str(
                match *token {
                    Ok(Some(_)) => "authorized"@,
                    Ok(None) => "uninitialized"@,
                    Err(_) => "unknown"@,
                },
            )
            &&& json_laws::keys_of(j).contains("last_fetch_ts"@)
            &&& json_laws::at(j, "last_fetch_ts"@) == JsonView::Null
            &&& json_laws::at(j, "mock_mode"@) == JsonView::Bool(mock_mode)
        }),
{
    lemma_health_keys();
}

/// The report that the response is made from says the same.
pub proof fn health_says_how_things_stand(
    version: &'static str,
    token: &Result<Option<TokenRecord>, RepoError>,
    needs_reauth: bool,
    mock_mode: bool,
    h: Health,
)
    requires
        call_ensures(health, (version, token, needs_reauth, mock_mode), h),
    ensures
        needs_reauth ==> h.status@ == "needs_reauth"@,
        !needs_reauth ==> h.status@ == "ok"@,
        h.version == version,
        *token matches Ok(Some(_)) ==> h.token_state@ == "authorized"@,
        *token matches Ok(None) ==> h.token_state@ == "uninitialized"@,
        *token is Err ==> h.token_state@ == "unknown"@,
        h.last_fetch_ts is None,
        h.mock_mode == mock_mode,
{
}

/// Pages may only read.
pub proof fn pages_may_only_read(methods: Vec<&'static str>)
    requires
        call_ensures(allowed_methods, (), methods),
    ensures
        methods@.len() == 1,
        methods@[0]@ == "GET"@,
{
    let names = methods@.map_values(|m: &'static str| m@);
    assert(names.len() == 1 && names.len() == methods@.len());
    assert(names[0] == methods@[0]@);
}

/// The header is the text, byte for byte.
pub open spec fn spells(header: Seq<u8>, s: Seq<char>) -> bool {
    header.len() == s.len() && forall|i: int|
        0 <= i < s.len() ==> #[trigger] header[i] == s[i] as u8
}

/// Printable ASCII or a tab.
pub open spec fn printable(b: u8) -> bool {
    32 <= b <= 126 || b == 9
}

/// The pages of the site may read the data plane, by either of its names.
pub proof fn the_site_may_read(origin: &[u8], yes: bool)
    requires
        call_ensures(origin_header_allowed, (origin,), yes),
        spells(origin@, "https://yudhyapw.com"@) || spells(origin@, "https://www.yudhyapw.com"@),
    ensures
        yes,
{
    reveal_strlit("https://yudhyapw.com");
    reveal_strlit("https://www.yudhyapw.com");
    let t = cors::ascii_text(origin@);
    if spells(origin@, "https://yudhyapw.com"@) {
        lemma_spelled(origin@, "https://yudhyapw.com"@);
    } else {
        lemma_spelled(origin@, "https://www.yudhyapw.com"@);
    }
}

proof fn lemma_spelled(header: Seq<u8>, s: Seq<char>)
    requires
        spells(header, s),
        forall|i: int| 0 <= i < s.len() ==> ' ' <= #[trigger] s[i] <= '~',
    ensures
        cors::ascii_text(header) == s,
        forall|i: int|
            0 <= i < header.len() ==> crate::infra::spotify_retry::visible(#[trigger] header[i]),
{
    assert forall|i: int| 0 <= i < s.len() implies cors::ascii_text(header)[i] == s[i] by {
        assert(' ' <= s[i] <= '~');
        assert(header[i] == s[i] as u8);
    }
    assert(cors::ascii_text(header) =~= s);
    assert forall|i: int| 0 <= i < header.len() implies crate::infra::spotify_retry::visible(
        #[trigger] header[i],
    ) by {
        assert(' ' <= s[i] <= '~');
        assert(header[i] == s[i] as u8);
    }
}

/// A development server on this machine may read it, on any port.
pub proof fn a_local_server_may_read(origin: &[u8], host: Seq<char>, yes: bool)
    requires
        call_ensures(origin_header_allowed, (origin,), yes),
        host == "http://127.0.0.1:"@ || host == "http://localhost:"@,
        host.len() <= origin@.len(),
        spells(origin@.take(host.len() as int), host),
        forall|i: int| 0 <= i < origin@.len() ==> printable(#[trigger] origin@[i]),
    ensures
        yes,
{
    reveal_strlit("http://127.0.0.1:");
    reveal_strlit("http://localhost:");
    lemma_spelled(origin@.take(host.len() as int), host);
    assert(cors::ascii_text(origin@).take(host.len() as int) =~= cors::ascii_text(
        origin@.take(host.len() as int),
    ));
    assert forall|i: int| 0 <= i < origin@.len() implies crate::infra::spotify_retry::visible(
        #[trigger] origin@[i],
    ) by {
        assert(printable(origin@[i]));
    }
}

/// Nobody else may: an origin that is allowed is printable, and is the
/// site's or begins with a local host and a colon.
pub proof fn nobody_else_may_read(origin: &[u8], yes: bool)
    requires
        call_ensures(origin_header_allowed, (origin,), yes),
        yes,
    ensures
        forall|i: int| 0 <= i < origin@.len() ==> printable(#[trigger] origin@[i]),
        ({
            let site = spells(origin@, "https://yudhyapw.com"@) || spells(
                origin@,
                "https://www.yudhyapw.com"@,
            );
            let local = |host: Seq<char>|
                host.len() <= origin@.len() && spells(origin@.take(host.len() as int), host);
            site || local("http://127.0.0.1:"@) || local("http://localhost:"@)
        }),
{
    assert forall|i: int| 0 <= i < origin@.len() implies printable(#[trigger] origin@[i]) by {
        assert(crate::infra::spotify_retry::visible(origin@[i]));
    }
    let t = cors::ascii_text(origin@);
    if t == "https://yudhyapw.com"@ {
        lemma_spells(origin@, t);
    } else if t == "https://www.yudhyapw.com"@ {
        lemma_spells(origin@, t);
    } else {
        let host = if crate::text::has_prefix(t, "http://127.0.0.1:"@) {
            "http://127.0.0.1:"@
        } else {
            "http://localhost:"@
        };
        assert(t.take(host.len() as int) == host);
        assert(cors::ascii_text(origin@.take(host.len() as int)) =~= host);
        lemma_spells(origin@.take(host.len() as int), host);
    }
}

proof fn lemma_spells(header: Seq<u8>, s: Seq<char>)
    requires
        cors::ascii_text(header) == s,
    ensures
        spells(header, s),
{
    assert forall|i: int| 0 <= i < s.len() implies #[trigger] header[i] == s[i] as u8 by {
        assert(cors::ascii_text(header)[i] == header[i] as char);
    }
}

/// The lines about a request to the data plane: who asked for what, and
/// what went back, with the length of the very body.
pub proof fn requests_are_logged(
    method: &str,
    path: &str,
    status: u16,
    body: &[u8],
    elapsed_ms: u64,
    asked: WireLine,
    sent: Relay,
)
    requires
        call_ensures(frontend_request, (method, path), asked),
        call_ensures(relay, (method, path, status, Ok::<&[u8], String>(body), elapsed_ms), sent),
    ensures
        asked.target@ == "music_api::wire::fe"@ && asked.method@ == method@ && asked.place@ == path@,
        asked.level is Info && asked.direction == Some(Direction::There) && asked.body is None,
        asked.status is None && asked.message@ == "frontend request"@,
        sent matches Relay::Relay(shown, summary) && {
            &&& shown.target@ == "music_api::wire::fe"@ && shown.level is Debug
            &&& shown.method@ == method@ && shown.place@ == path@ && shown.status == Some(status)
            &&& shown.direction == Some(Direction::Back)
            &&& shown.message@ == "frontend response (body)"@
            &&& shown.body is Some && (valid_utf8(body@) ==> shown.body->0@ == decode_utf8(body@))
            &&& summary.target@ == "music_api::wire::fe"@ && summary.level is Info
            &&& summary.method@ == method@ && summary.place@ == path@
            &&& summary.status == Some(status) && summary.elapsed_ms == Some(elapsed_ms)
            &&& summary.length matches Some(n) && n == body@.len()
            &&& summary.body is None && summary.direction == Some(Direction::Back)
            &&& summary.message@ == "frontend response"@
        },
{
}

/// A body that could not be buffered is replaced by a failure, and the log
/// says why.
pub proof fn an_unbuffered_body_is_replaced(
    method: &str,
    path: &str,
    status: u16,
    why: String,
    elapsed_ms: u64,
    sent: Relay,
)
    requires
        call_ensures(relay, (method, path, status, Err::<&[u8], String>(why), elapsed_ms), sent),
    ensures
        sent matches Relay::Replace(r, line) && {
            &&& r.status == 500
            &&& r.body matches Body::Text(t) && t@ == "log buffer failed"@
            &&& line.level is Warn
            &&& line.method@ == method@ && line.place@ == path@
            &&& line.target@ == "music_api::wire::fe"@
            &&& line.message@ == "failed to buffer fe response body for logging"@
            &&& line.error matches Some(e) && e@ == why@
        },
{
}

/// The lines about a request to an endpoint.
pub proof fn endpoint_requests_are_logged(
    endpoint: EndpointKind,
    status: u16,
    body: &str,
    asked: EndpointLine,
    lines: (EndpointLine, EndpointLine),
)
    requires
        call_ensures(endpoint_request, (endpoint,), asked),
        call_ensures(endpoint_response, (endpoint, status, body), lines),
    ensures
        asked.endpoint == endpoint && asked.level is Info && asked.direction is There,
        asked.status is None && asked.bytes is None && asked.body is None,
        asked.message@ == "frontend request"@,
        lines.0.endpoint == endpoint && lines.0.level is Debug && lines.0.direction is Back,
        lines.0.status == Some(status) && (lines.0.body matches Some(b) && b@ == body@),
        lines.1.endpoint == endpoint && lines.1.level is Info && lines.1.direction is Back,
        lines.1.status == Some(status) && lines.1.body is None,
        lines.1.bytes matches Some(n) && n == encode_utf8(body@).len(),
        lines.0.message@ == "frontend response (body)"@,
        lines.1.message@ == "frontend response"@,
{
}

} // verus!
