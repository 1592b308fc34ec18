//! Authorization by the owner. A login, gated by HTTP Basic credentials,
//! sends the owner to the authorization page; the callback checks the
//! `state` value, exchanges the code, makes sure that it is the owner who
//! authorized, and has the tokens stored.

use subtle::ConstantTimeEq;
use vstd::prelude::*;
use vstd::string::*;
use vstd::utf8::*;

use crate::app::state_store::{self, StateStore};
use crate::config::{Config, ConfigView};
use crate::domain::oauth_client::{
    RefreshedTokens, RefreshedView, TokenExchangeError, TokenExchangeErrorView,
};
use crate::domain::spotify::{SpotifyError, SpotifyErrorView};
use crate::domain::tokens::{RepoError, RepoErrorView, TokenRecord, TokenView};
use crate::json::{Json, JsonView};
use crate::oauth::{self, build_authorize_url};
use crate::random;
use crate::routes::reply::{self, plain_reply, push_header, Body, BodyView, Reply, ReplyView};
use crate::text::{self, str_eq};
use crate::time::{self, Timestamp, MAX_NANOS};

verus! {

/// The challenge that an unauthorized client gets.
pub const REALM: &'static str = "Basic realm=\"music-api\"";

/// The credentials of a request's `Authorization: Basic` header.
pub struct Credentials {
    pub username: String,
    pub password: String,
}

/// The response to a request without valid credentials.
pub open spec fn unauthorized_view() -> ReplyView {
    ReplyView {
        status: 401,
        headers: seq![("www-authenticate"@, REALM@)],
        body: BodyView::Text("unauthorized"@),
    }
}

/// Refuse a request without valid credentials.
pub fn unauthorized() -> (r: Reply)
    ensures
        r@ == unauthorized_view(),
{
    let mut headers: Vec<(String, String)> = Vec::new();
    push_header(&mut headers, "www-authenticate", REALM.to_owned());
    assert(reply::headers_view(headers@) =~= seq![("www-authenticate"@, REALM@)]);
    Reply { status: 401, headers, body: Body::Text("unauthorized".to_owned()) }
}

/// The credentials are there and are those of the settings.
pub open spec fn granted(config: ConfigView, auth: Option<Credentials>) -> bool {
    match auth {
        Some(c) => c.username@ == config.auth_basic_username && c.password@
            == config.auth_basic_password,
        None => false,
    }
}

/// `subtle::ConstantTimeEq::ct_eq` of two byte slices. Claimed: it says
/// whether they are equal. That the time it takes does not depend on what
/// the slices hold, only on their lengths, is not stated.
#[verifier::external_body]
fn constant_time_eq(a: &[u8], b: &[u8]) -> (same: bool)
    ensures
        same == (a@ == b@),
{
    a.ct_eq(b).into()
}

/// Check the credentials of a request. The passwords are compared in
/// constant time.
pub fn basic_auth_ok(config: &Config, auth: &Option<Credentials>) -> (ok: bool)
    ensures
        ok == granted(config@, *auth),
{
    broadcast use encode_utf8_decode_utf8;

    match auth {
        Some(c) => {
            let user_ok = str_eq(c.username.as_str(), config.auth_basic_username.as_str());
            let given = c.password.as_str();
            let wanted = config.auth_basic_password.as_str();
            let pass_ok = constant_time_eq(given.as_bytes(), wanted.as_bytes());
            proof {
                assert(decode_utf8(encode_utf8(given@)) == given@);
                assert(decode_utf8(encode_utf8(wanted@)) == wanted@);
            }
            user_ok && pass_ok
        },
        None => false,
    }
}

/// The cookie that carries a `state` value.
pub open spec fn cookie_view(state: Seq<char>) -> Seq<char> {
    "oauth_state="@ + state + "; HttpOnly; Path=/; Max-Age=600; SameSite=Lax"@
}

/// The response that sends the owner to the authorization page.
pub open spec fn login_view(config: ConfigView, state: Seq<char>) -> ReplyView {
    ReplyView {
        status: 302,
        headers: seq![
            ("location"@, oauth::authorize_url(config, state)),
            ("set-cookie"@, cookie_view(state)),
        ],
        body: BodyView::Empty,
    }
}

/// Send the owner to the authorization page with this `state` value.
pub fn login_with(config: &Config, state: &str) -> (r: Reply)
    ensures
        r@ == login_view(config@, state@),
{
    let cookie = "oauth_state=".to_owned().concat(state).concat(
        "; HttpOnly; Path=/; Max-Age=600; SameSite=Lax",
    );
    let mut headers: Vec<(String, String)> = Vec::new();
    push_header(&mut headers, "location", build_authorize_url(config, state));
    push_header(&mut headers, "set-cookie", cookie);
    assert(reply::headers_view(headers@) =~= login_view(config@, state@).headers);
    Reply { status: 302, headers, body: Body::Empty }
}

/// Answer a login. Without valid credentials nothing is issued; with them
/// the owner is sent on with a freshly issued `state` value.
pub fn login(config: &Config, store: &mut StateStore, auth: &Option<Credentials>) -> (r: Reply)
    ensures
        final(store).ttl() == old(store).ttl(),
        final(store).origin() == old(store).origin(),
        !granted(config@, *auth) ==> r@ == unauthorized_view() && final(store).pending() == old(
            store,
        ).pending(),
        granted(config@, *auth) ==> exists|bytes: Seq<u8>, now: u128|
            {
                &&& bytes.len() == 16
                &&& random::bytes_drawn(bytes)
                &&& now <= MAX_NANOS
                &&& time::elapsed_reads(old(store).origin(), now)
                &&& now + old(store).ttl() <= u128::MAX
                &&& r@ == login_view(config@, text::hex(bytes))
                &&& final(store).pending() == #[trigger] state_store::after_issue(
                    old(store).pending(),
                    text::hex(bytes),
                    now,
                    old(store).ttl(),
                )
            },
{
    if !basic_auth_ok(config, auth) {
        return unauthorized();
    }
    let state = store.issue();
    login_with(config, state.as_str())
}

/// The query of a callback.
pub struct CallbackQuery {
    pub code: String,
    pub state: String,
}

/// How far a callback has come.
pub enum CallbackState {
    /// The code is being exchanged.
    Exchanging,
    /// The profile of who authorized is being fetched, with these tokens.
    Identifying(RefreshedTokens),
    /// The tokens are being stored.
    Storing,
    Finished,
}

/// What a [`CallbackState`] holds.
pub enum CallbackStateView {
    Exchanging,
    Identifying(RefreshedView),
    Storing,
    Finished,
}

impl View for CallbackState {
    type V = CallbackStateView;

    open spec fn view(&self) -> CallbackStateView {
        match *self {
            CallbackState::Exchanging => CallbackStateView::Exchanging,
            CallbackState::Identifying(tokens) => CallbackStateView::Identifying(tokens@),
            CallbackState::Storing => CallbackStateView::Storing,
            CallbackState::Finished => CallbackStateView::Finished,
        }
    }
}

/// What came of a callback's last action.
pub enum CallbackEvent {
    Exchanged(Result<RefreshedTokens, TokenExchangeError>),
    Identified { profile: Result<Option<Json>, SpotifyError>, now: Timestamp },
    Stored(Result<(), RepoError>),
}

/// What a [`CallbackEvent`] holds.
pub enum CallbackEventView {
    Exchanged(Result<RefreshedView, TokenExchangeErrorView>),
    Identified { profile: Result<Option<JsonView>, SpotifyErrorView>, now: Timestamp },
    Stored(Result<(), RepoErrorView>),
}

impl View for CallbackEvent {
    type V = CallbackEventView;

    open spec fn view(&self) -> CallbackEventView {
        match *self {
            CallbackEvent::Exchanged(result) => CallbackEventView::Exchanged(
                crate::app::spotify_service::refreshed_view(result),
            ),
            CallbackEvent::Identified { profile, now } => CallbackEventView::Identified {
                profile: crate::app::spotify_service::called_view(profile),
                now,
            },
            CallbackEvent::Stored(result) => CallbackEventView::Stored(
                crate::app::spotify_service::stored_view(result),
            ),
        }
    }
}

/// What a callback does next.
pub enum CallbackAction {
    /// Exchange the code for tokens.
    Exchange { code: String, redirect_uri: String },
    /// GET `/v1/me` with this access token.
    FetchProfile(String),
    Store(TokenRecord),
    /// Respond; first lower the authorization flag, where so told.
    Respond { reply: Reply, lower_flag: bool },
}

/// What a [`CallbackAction`] holds.
pub enum CallbackActionView {
    Exchange { code: Seq<char>, redirect_uri: Seq<char> },
    FetchProfile(Seq<char>),
    Store(TokenView),
    Respond { reply: ReplyView, lower_flag: bool },
}

impl View for CallbackAction {
    type V = CallbackActionView;

    open spec fn view(&self) -> CallbackActionView {
        match *self {
            CallbackAction::Exchange { code, redirect_uri } => CallbackActionView::Exchange {
                code: code@,
                redirect_uri: redirect_uri@,
            },
            CallbackAction::FetchProfile(access) => CallbackActionView::FetchProfile(access@),
            CallbackAction::Store(record) => CallbackActionView::Store(record@),
            CallbackAction::Respond { reply, lower_flag } => CallbackActionView::Respond {
                reply: reply@,
                lower_flag,
            },
        }
    }
}

/// The end of a callback that was refused or failed.
pub open spec fn turned_down(status: u16, text: Seq<char>) -> (
    CallbackStateView,
    CallbackActionView,
) {
    (
        CallbackStateView::Finished,
        CallbackActionView::Respond { reply: reply::plain(status, text), lower_flag: false },
    )
}

/// How a callback begins, given whether its `state` value is live.
pub open spec fn callback_first(
    live: bool,
    code: Seq<char>,
    redirect_uri: Seq<char>,
) -> (CallbackStateView, CallbackActionView) {
    if live {
        (
            CallbackStateView::Exchanging,
            CallbackActionView::Exchange { code, redirect_uri },
        )
    } else {
        turned_down(400, "state mismatch"@)
    }
}

/// The profile is the owner's.
pub open spec fn is_owner(config: ConfigView, profile: JsonView) -> bool {
    profile.field("id"@).text() == config.owner_spotify_user_id
}

/// The token set that an authorization brings.
pub open spec fn linked(
    config: ConfigView,
    tokens: RefreshedView,
    now: Timestamp,
) -> TokenView {
    TokenView {
        access_token: tokens.access_token,
        refresh_token: match tokens.refresh_token {
            Some(r) => r,
            None => Seq::empty(),
        },
        expires_at: now.later(tokens.expires_in),
        scope: match tokens.scope {
            Some(s) => s,
            None => Seq::empty(),
        },
        owner_id: config.owner_spotify_user_id,
    }
}

/// The event is one that the callback waits for. Where it brings the
/// owner's profile, the tokens' expiry lies in the range of the calendar.
pub open spec fn callback_awaited(
    config: ConfigView,
    state: CallbackStateView,
    event: CallbackEventView,
) -> bool {
    match (state, event) {
        (CallbackStateView::Exchanging, CallbackEventView::Exchanged(_)) => true,
        (
            CallbackStateView::Identifying(tokens),
            CallbackEventView::Identified { profile, now },
        ) => match profile {
            Ok(Some(me)) => is_owner(config, me) ==> now.can_add(tokens.expires_in),
            _ => true,
        },
        (CallbackStateView::Storing, CallbackEventView::Stored(_)) => true,
        _ => false,
    }
}

/// How a callback goes on from `state` once `event` has come.
pub open spec fn callback_next(
    config: ConfigView,
    state: CallbackStateView,
    event: CallbackEventView,
) -> (CallbackStateView, CallbackActionView) {
    match (state, event) {
        (CallbackStateView::Exchanging, CallbackEventView::Exchanged(result)) => match result {
            Ok(tokens) => (
                CallbackStateView::Identifying(tokens),
                CallbackActionView::FetchProfile(tokens.access_token),
            ),
            Err(_) => turned_down(502, "token exchange failed"@),
        },
        (
            CallbackStateView::Identifying(tokens),
            CallbackEventView::Identified { profile, now },
        ) => match profile {
            Ok(Some(me)) => if is_owner(config, me) {
                (CallbackStateView::Storing, CallbackActionView::Store(linked(config, tokens, now)))
            } else {
                turned_down(403, "not the owner"@)
            },
            _ => turned_down(502, "profile fetch failed"@),
        },
        (CallbackStateView::Storing, CallbackEventView::Stored(result)) => match result {
            Ok(()) => (
                CallbackStateView::Finished,
                CallbackActionView::Respond {
                    reply: reply::plain(200, "Spotify linked. You can close this tab."@),
                    lower_flag: true,
                },
            ),
            Err(_) => turned_down(500, "could not store tokens"@),
        },
        _ => arbitrary(),
    }
}

fn turn_down(status: u16, text: &str) -> (next: (CallbackState, CallbackAction))
    ensures
        (next.0@, next.1@) == turned_down(status, text@),
{
    (
        CallbackState::Finished,
        CallbackAction::Respond { reply: plain_reply(status, text), lower_flag: false },
    )
}

/// Begin a callback, given whether its `state` value is live.
pub fn callback_begin(live: bool, config: &Config, query: &CallbackQuery) -> (next: (
    CallbackState,
    CallbackAction,
))
    ensures
        (next.0@, next.1@) == callback_first(live, query.code@, config@.spotify_redirect_uri),
{
    if live {
        (
            CallbackState::Exchanging,
            CallbackAction::Exchange {
                code: query.code.clone(),
                redirect_uri: config.spotify_redirect_uri.clone(),
            },
        )
    } else {
        turn_down(400, "state mismatch")
    }
}

/// Begin a callback: its `state` value is consumed, and must have been
/// live.
pub fn callback_start(config: &Config, store: &mut StateStore, query: &CallbackQuery) -> (next: (
    CallbackState,
    CallbackAction,
))
    ensures
        exists|now: u128|
            now <= MAX_NANOS && time::elapsed_reads(old(store).origin(), now) && (next.0@, next.1@) == callback_first(
                #[trigger] state_store::is_live(old(store).pending(), query.state@, now),
                query.code@,
                config@.spotify_redirect_uri,
            ),
        final(store).pending() == state_store::after_consume(old(store).pending(), query.state@),
        final(store).ttl() == old(store).ttl(),
        final(store).origin() == old(store).origin(),
{
    let live = store.consume(query.state.as_str());
    callback_begin(live, config, query)
}

fn link(config: &Config, tokens: RefreshedTokens, now: Timestamp) -> (record: TokenRecord)
    requires
        now.can_add(tokens.expires_in),
    ensures
        record@ == linked(config@, tokens@, now),
{
    TokenRecord {
        access_token: tokens.access_token,
        refresh_token: match tokens.refresh_token {
            Some(r) => r,
            None => String::new(),
        },
        expires_at: now.plus_seconds(tokens.expires_in),
        scope: match tokens.scope {
            Some(s) => s,
            None => String::new(),
        },
        owner_id: config.owner_spotify_user_id.clone(),
    }
}

fn profile_is_owner(config: &Config, profile: &Json) -> (yes: bool)
    ensures
        yes == is_owner(config@, profile@),
{
    let id = match profile.get("id") {
        Some(id) => match id.as_str() {
            Some(id) => id.to_owned(),
            None => String::new(),
        },
        None => String::new(),
    };
    str_eq(id.as_str(), config.owner_spotify_user_id.as_str())
}

/// Go on with a callback once the awaited event has come.
pub fn callback_step(config: &Config, state: CallbackState, event: CallbackEvent) -> (next: (
    CallbackState,
    CallbackAction,
))
    requires
        callback_awaited(config@, state@, event@),
    ensures
        (next.0@, next.1@) == callback_next(config@, state@, event@),
{
    match (state, event) {
        (CallbackState::Exchanging, CallbackEvent::Exchanged(result)) => match result {
            Ok(tokens) => {
                let access = tokens.access_token.clone();
                (CallbackState::Identifying(tokens), CallbackAction::FetchProfile(access))
            },
            Err(_) => turn_down(502, "token exchange failed"),
        },
        (
            CallbackState::Identifying(tokens),
            CallbackEvent::Identified { profile, now },
        ) => match profile {
            Ok(Some(me)) => if profile_is_owner(config, &me) {
                (CallbackState::Storing, CallbackAction::Store(link(config, tokens, now)))
            } else {
                turn_down(403, "not the owner")
            },
            _ => turn_down(502, "profile fetch failed"),
        },
        (CallbackState::Storing, CallbackEvent::Stored(result)) => match result {
            Ok(()) => (
                CallbackState::Finished,
                CallbackAction::Respond {
                    reply: plain_reply(200, "Spotify linked. You can close this tab."),
                    lower_flag: true,
                },
            ),
            Err(_) => turn_down(500, "could not store tokens"),
        },
        _ => {
            assert(false);
            turn_down(500, "could not store tokens")
        },
    }
}

/// A code is exchanged only where the `state` value is live; otherwise the
/// callback is refused at once.
pub proof fn dead_state_is_refused(live: bool, code: Seq<char>, redirect_uri: Seq<char>)
    ensures
        callback_first(live, code, redirect_uri).1 is Exchange <==> live,
        !live ==> callback_first(live, code, redirect_uri).1 == (CallbackActionView::Respond {
            reply: reply::plain(400, "state mismatch"@),
            lower_flag: false,
        }),
{
}

/// The same callback cannot be used twice: its `state` value, consumed by
/// the first, is dead for the second, whenever that comes.
pub proof fn callback_cannot_be_replayed(
    pending: Map<Seq<char>, u128>,
    state: Seq<char>,
    code: Seq<char>,
    redirect_uri: Seq<char>,
    later: u128,
)
    ensures
        callback_first(
            state_store::is_live(state_store::after_consume(pending, state), state, later),
            code,
            redirect_uri,
        ) == turned_down(400, "state mismatch"@),
{
}

/// Tokens are stored exactly where the profile fetched with them is the
/// owner's, and then in the owner's name.
pub proof fn only_the_owner_links(
    config: ConfigView,
    state: CallbackStateView,
    event: CallbackEventView,
)
    requires
        callback_awaited(config, state, event),
    ensures
        ({
            let action = callback_next(config, state, event).1;
            let identified = event matches CallbackEventView::Identified {
                profile: Ok(Some(me)),
                ..
            } && is_owner(config, me);
            &&& action is Store <==> identified
            &&& action matches CallbackActionView::Store(record) ==> record.owner_id
                == config.owner_spotify_user_id
        }),
{
}

/// The authorization flag is lowered, and success reported, exactly where
/// the tokens have been stored.
pub proof fn flag_lowered_once_stored(
    config: ConfigView,
    state: CallbackStateView,
    event: CallbackEventView,
)
    requires
        callback_awaited(config, state, event),
    ensures
        ({
            let action = callback_next(config, state, event).1;
            let stored = event matches CallbackEventView::Stored(result) && result is Ok;
            let lowered = action matches CallbackActionView::Respond { lower_flag, .. }
                && lower_flag;
            let success = action matches CallbackActionView::Respond { reply, .. } && reply.status
                == 200;
            &&& lowered <==> stored
            &&& success <==> stored
        }),
{
}

} // verus!
