//! Who gets in, where a login leads, and how a callback goes, in terms of
//! the settings, of what the client sent and of what came back.

use vstd::prelude::*;

use crate::app::call_laws;
use crate::app::state_store::{self, StateStore};
use crate::config::Config;
use crate::domain::oauth_client::{RefreshedTokens, TokenExchangeError};
use crate::domain::spotify::SpotifyError;
use crate::domain::tokens::RepoError;
use crate::json::{Json, JsonView};
use crate::json_laws;
use crate::oauth;
use crate::random;
use crate::routes::auth::{
    self, basic_auth_ok, callback_begin, callback_start, callback_step, login, login_with,
    unauthorized, CallbackAction, CallbackEvent, CallbackQuery, CallbackState, Credentials,
};
use crate::routes::reply::{self, error_reply, json_reply, plain_reply, Body, Reply};
use crate::text;
use crate::time::{self, Timestamp};

verus! {

/// The response is a line of text, without headers of its own.
pub open spec fn says(r: Reply, status: u16, text: Seq<char>) -> bool {
    &&& r.status == status
    &&& r.headers@.len() == 0
    &&& r.body matches Body::Text(t) && t@ == text
}

proof fn lemma_headers(headers: Seq<(String, String)>)
    ensures
        reply::headers_view(headers).len() == headers.len(),
        forall|i: int|
            0 <= i < headers.len() ==> #[trigger] reply::headers_view(headers)[i] == (
                headers[i].0@,
                headers[i].1@,
            ),
{
}

/// A response carries the status, the text or the JSON it was made with. A
/// failure is named under `error`, and nothing else is said.
pub proof fn responses_carry_what_they_were_given(
    status: u16,
    text: &str,
    body: Json,
    plain: Reply,
    json: Reply,
    error: Reply,
)
    requires
        call_ensures(plain_reply, (status, text), plain),
        call_ensures(json_reply, (status, body), json),
        call_ensures(error_reply, (status, text), error),
    ensures
        says(plain, status, text@),
        json.status == status && json.headers@.len() == 0,
        json.body matches Body::Json(j) && j@ == body@,
        error.status == status && error.headers@.len() == 0,
        error.body matches Body::Json(j) && json_laws::at(j@, "error"@) == JsonView::Str(text@)
            && json_laws::keys_of(j@) =~= set!["error"@],
{
    lemma_headers(plain.headers@);
    lemma_headers(json.headers@);
    lemma_headers(error.headers@);
}

/// A header that is pushed comes last, after those that were there.
pub proof fn a_pushed_header_comes_last(
    headers: &mut Vec<(String, String)>,
    name: &str,
    value: String,
)
    requires
        call_ensures(reply::push_header, (headers, name, value), ()),
    ensures
        final(headers)@.len() == old(headers)@.len() + 1,
        final(headers)@[old(headers)@.len() as int].0@ == name@,
        final(headers)@[old(headers)@.len() as int].1@ == value@,
        forall|i: int|
            0 <= i < old(headers)@.len() ==> (#[trigger] final(headers)@[i]).0@ == old(
                headers,
            )@[i].0@ && final(headers)@[i].1@ == old(headers)@[i].1@,
{
    lemma_headers(old(headers)@);
    lemma_headers(final(headers)@);
    let before = reply::headers_view(old(headers)@);
    let after = reply::headers_view(final(headers)@);
    assert(after == before.push((name@, value@)));
    assert(after[before.len() as int] == (name@, value@));
    assert forall|i: int| 0 <= i < old(headers)@.len() implies (#[trigger] final(headers)@[i]).0@
        == old(headers)@[i].0@ && final(headers)@[i].1@ == old(headers)@[i].1@ by {
        assert(after[i] == before[i]);
    }
}

/// The owner gets in with the user name and the password of the settings;
/// whoever lacks credentials, or differs in one of the two, does not.
pub proof fn both_must_match(config: &Config, auth: &Option<Credentials>, ok: bool)
    requires
        call_ensures(basic_auth_ok, (config, auth), ok),
    ensures
        auth is None ==> !ok,
        auth matches Some(c) ==> (ok <==> c.username@ == config.auth_basic_username@ && c.password@
            == config.auth_basic_password@),
{
}

/// Whoever does not get in is told so, and asked for Basic credentials.
pub proof fn the_unauthorized_are_challenged(r: Reply)
    requires
        call_ensures(unauthorized, (), r),
    ensures
        r.status == 401,
        r.headers@.len() == 1,
        r.headers@[0].0@ == "www-authenticate"@,
        r.headers@[0].1@ == "Basic realm=\"music-api\""@,
        r.body matches Body::Text(t) && t@ == "unauthorized"@,
{
    lemma_headers(r.headers@);
    assert(r@.headers.len() == 1);
    assert(r@.headers[0] == (r.headers@[0].0@, r.headers@[0].1@));
}

/// A login leads to the authorization page with the state value, which it
/// leaves in a cookie that scripts cannot read and that lives ten minutes.
pub proof fn a_login_leads_to_the_page(config: &Config, state: &str, r: Reply, page: String)
    requires
        call_ensures(login_with, (config, state), r),
        call_ensures(oauth::build_authorize_url, (config, state), page),
    ensures
        r.status == 302,
        r.body is Empty,
        r.headers@.len() == 2,
        r.headers@[0].0@ == "location"@ && r.headers@[0].1@ == page@,
        r.headers@[1].0@ == "set-cookie"@,
        r.headers@[1].1@ == "oauth_state="@ + state@
            + "; HttpOnly; Path=/; Max-Age=600; SameSite=Lax"@,
{
    lemma_headers(r.headers@);
    assert(r@.headers.len() == 2);
    assert(r@.headers[0] == (r.headers@[0].0@, r.headers@[0].1@));
    assert(r@.headers[1] == (r.headers@[1].0@, r.headers@[1].1@));
}

/// A login without the owner's credentials is refused, and issues nothing.
/// With them it issues a value, which the address and the cookie carry, and
/// which is pending until the time to live has passed.
pub proof fn a_login_issues_what_it_carries(
    config: &Config,
    store: &mut StateStore,
    auth: &Option<Credentials>,
    r: Reply,
)
    requires
        call_ensures(login, (config, store, auth), r),
    ensures
        ({
            let owner = auth matches Some(c) && c.username@ == config.auth_basic_username@
                && c.password@ == config.auth_basic_password@;
            &&& !owner ==> r.status == 401 && final(store).pending() == old(store).pending()
            &&& owner ==> r.status == 302 && exists|bytes: Seq<u8>, now: u128| #[trigger]
                random::bytes_drawn(bytes) && #[trigger] time::elapsed_reads(
                    old(store).origin(),
                    now,
                ) && {
                    let state = text::hex(bytes);
                    &&& r@.headers.len() == 2
                    &&& r@.headers[0] == ("location"@, oauth::authorize_url(config@, state))
                    &&& r@.headers[1].0 == "set-cookie"@
                    &&& r@.headers[1].1 == "oauth_state="@ + state
                        + "; HttpOnly; Path=/; Max-Age=600; SameSite=Lax"@
                    &&& final(store).pending() == old(store).pending().insert(
                        state,
                        (now + old(store).ttl()) as u128,
                    )
                    &&& now + old(store).ttl() <= u128::MAX
                }
        }),
{
}

/// The callback ended with this response, and leaves the authorization flag
/// as it is.
pub open spec fn turned_away(
    next: (CallbackState, CallbackAction),
    status: u16,
    text: Seq<char>,
) -> bool {
    &&& next.0 is Finished
    &&& next.1 matches CallbackAction::Respond { reply, lower_flag } && !lower_flag && says(
        reply,
        status,
        text,
    )
}

/// With a live state value the very code of the query is exchanged, for the
/// address of the settings; without one the callback is turned away.
pub proof fn a_live_state_has_the_code_exchanged(
    live: bool,
    config: &Config,
    query: &CallbackQuery,
    next: (CallbackState, CallbackAction),
)
    requires
        call_ensures(callback_begin, (live, config, query), next),
    ensures
        live ==> next.0 is Exchanging && (next.1 matches CallbackAction::Exchange {
            code,
            redirect_uri,
        } && code@ == query.code@ && redirect_uri@ == config.spotify_redirect_uri@),
        !live ==> turned_away(next, 400, "state mismatch"@),
{
    if let CallbackAction::Respond { reply, .. } = next.1 {
        lemma_headers(reply.headers@);
    }
}

/// A callback uses up its state value. The code is exchanged where the value
/// was pending and its time was not up; otherwise the callback is turned
/// away.
pub proof fn a_callback_uses_up_its_state(
    config: &Config,
    store: &mut StateStore,
    query: &CallbackQuery,
    next: (CallbackState, CallbackAction),
)
    requires
        call_ensures(callback_start, (config, store, query), next),
    ensures
        final(store).pending() == old(store).pending().remove(query.state@),
        exists|now: u128| #[trigger]
            time::elapsed_reads(old(store).origin(), now) && {
                let live = old(store).pending().dom().contains(query.state@) && now < old(
                    store,
                ).pending()[query.state@];
                &&& live ==> next.0 is Exchanging && (next.1 matches CallbackAction::Exchange {
                    code,
                    redirect_uri,
                } && code@ == query.code@ && redirect_uri@ == config.spotify_redirect_uri@)
                &&& !live ==> turned_away(next, 400, "state mismatch"@)
            },
{
    if let CallbackAction::Respond { reply, .. } = next.1 {
        lemma_headers(reply.headers@);
    }
    let now = choose|now: u128|
        now <= time::MAX_NANOS && time::elapsed_reads(old(store).origin(), now) && (
            next.0@,
            next.1@,
        ) == auth::callback_first(
            #[trigger] state_store::is_live(old(store).pending(), query.state@, now),
            query.code@,
            config@.spotify_redirect_uri,
        );
    assert(time::elapsed_reads(old(store).origin(), now));
}

/// With tokens in hand the profile is asked for, with their access token;
/// a failed exchange turns the callback away.
pub proof fn fresh_tokens_ask_who_it_is(
    config: &Config,
    result: Result<RefreshedTokens, TokenExchangeError>,
    next: (CallbackState, CallbackAction),
)
    requires
        call_ensures(
            callback_step,
            (config, CallbackState::Exchanging, CallbackEvent::Exchanged(result)),
            next,
        ),
    ensures
        result matches Ok(tokens) ==> (next.0 matches CallbackState::Identifying(t) && t@
            == tokens@) && (next.1 matches CallbackAction::FetchProfile(access) && access@
            == tokens.access_token@),
        result is Err ==> turned_away(next, 502, "token exchange failed"@),
{
    if let CallbackAction::Respond { reply, .. } = next.1 {
        lemma_headers(reply.headers@);
    }
}

/// The tokens are stored exactly where the profile's `id` is the owner's,
/// whatever else the profile holds. They are stored as they came, empty
/// texts for what did not come, with an expiry that lies as many seconds
/// ahead as they live, in the owner's name.
pub proof fn the_id_decides(
    config: &Config,
    tokens: RefreshedTokens,
    me: Json,
    now: Timestamp,
    next: (CallbackState, CallbackAction),
)
    requires
        json_laws::text_at(me@, "id"@) == config.owner_spotify_user_id@ ==> now.can_add(
            tokens.expires_in,
        ),
        call_ensures(
            callback_step,
            (
                config,
                CallbackState::Identifying(tokens),
                CallbackEvent::Identified {
                    profile: Ok::<Option<Json>, SpotifyError>(Some(me)),
                    now,
                },
            ),
            next,
        ),
    ensures
        next.1 is Store <==> json_laws::text_at(me@, "id"@) == config.owner_spotify_user_id@,
        !(next.1 is Store) ==> turned_away(next, 403, "not the owner"@),
        next.1 matches CallbackAction::Store(record) ==> {
            &&& next.0 is Storing
            &&& record.access_token@ == tokens.access_token@
            &&& record.refresh_token@ == match tokens.refresh_token {
                Some(r) => r@,
                None => Seq::empty(),
            }
            &&& record.scope@ == match tokens.scope {
                Some(s) => s@,
                None => Seq::empty(),
            }
            &&& record.expires_at.secs - now.secs == tokens.expires_in
            &&& record.expires_at.nanos == now.nanos
            &&& record.owner_id@ == config.owner_spotify_user_id@
        },
{
    if let CallbackAction::Respond { reply, .. } = next.1 {
        lemma_headers(reply.headers@);
    }
}

/// Whatever comes of a step of the callback is taken, as long as the expiry
/// of the owner's tokens lies in the calendar.
pub proof fn every_answer_is_taken(config: &Config, state: CallbackState, event: CallbackEvent)
    requires
        match event {
            CallbackEvent::Exchanged(_) => state is Exchanging,
            CallbackEvent::Identified { profile, now } => state matches CallbackState::Identifying(
                tokens,
            ) && (profile matches Ok(Some(me)) ==> json_laws::text_at(me@, "id"@)
                == config.owner_spotify_user_id@ ==> call_laws::expiry_in_calendar(tokens, now)),
            CallbackEvent::Stored(_) => state is Storing,
        },
    ensures
        call_requires(callback_step, (config, state, event)),
{
}

/// Without a profile nobody is linked.
pub proof fn no_profile_links_nobody(
    config: &Config,
    tokens: RefreshedTokens,
    profile: Result<Option<Json>, SpotifyError>,
    now: Timestamp,
    next: (CallbackState, CallbackAction),
)
    requires
        !(profile matches Ok(Some(_))),
        call_ensures(
            callback_step,
            (
                config,
                CallbackState::Identifying(tokens),
                CallbackEvent::Identified { profile, now },
            ),
            next,
        ),
    ensures
        turned_away(next, 502, "profile fetch failed"@),
{
    if let CallbackAction::Respond { reply, .. } = next.1 {
        lemma_headers(reply.headers@);
    }
}

/// Once the tokens are stored the flag is lowered and the owner is told;
/// tokens that could not be stored turn the callback away.
pub proof fn stored_tokens_end_the_callback(
    config: &Config,
    result: Result<(), RepoError>,
    next: (CallbackState, CallbackAction),
)
    requires
        call_ensures(
            callback_step,
            (config, CallbackState::Storing, CallbackEvent::Stored(result)),
            next,
        ),
    ensures
        next.0 is Finished,
        result is Ok ==> (next.1 matches CallbackAction::Respond { reply, lower_flag } && lower_flag
            && says(reply, 200, "Spotify linked. You can close this tab."@)),
        result is Err ==> turned_away(next, 500, "could not store tokens"@),
{
    if let CallbackAction::Respond { reply, .. } = next.1 {
        lemma_headers(reply.headers@);
    }
}

} // verus!
