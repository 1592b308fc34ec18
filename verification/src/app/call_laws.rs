//! How a call on the owner's behalf goes, step by step, in terms of what
//! came back from storage, from upstream and from the token endpoint.

use vstd::prelude::*;

use crate::app::spotify_service::{
    self, service_start, service_step, ServiceAction, ServiceError, ServiceEvent, ServiceState,
};
use crate::domain::oauth_client::{RefreshedTokens, TokenExchangeError};
use crate::domain::spotify::SpotifyError;
use crate::domain::tokens::{RepoError, TokenRecord};
use crate::json::Json;
use crate::text;
use crate::time::Timestamp;

verus! {

/// The call ended with this outcome, and leaves the authorization flag as
/// it is.
pub open spec fn ended(next: (ServiceState, ServiceAction)) -> bool {
    &&& next.0 is Finished
    &&& next.1 is Done
    &&& !next.1->raise_flag
}

/// A call begins with the stored token.
pub proof fn a_call_begins_with_the_stored_token(first: (ServiceState, ServiceAction))
    requires
        call_ensures(service_start, (), first),
    ensures
        first.0 is ReadingToken,
        first.1 is ReadToken,
{
}

/// Whatever upstream replied, to the first attempt or to the retry, is the
/// outcome of the call: the very reply, or none where it had no content.
pub proof fn the_reply_is_the_outcome(
    state: ServiceState,
    reply: Option<Json>,
    next: (ServiceState, ServiceAction),
)
    requires
        state is FirstCall || state is Retrying,
        call_ensures(
            service_step,
            (state, ServiceEvent::Called(Ok::<Option<Json>, SpotifyError>(reply))),
            next,
        ),
    ensures
        ended(next),
        next.1->outcome is Ok,
        reply is Some <==> next.1->outcome->Ok_0 is Some,
        reply is Some ==> next.1->outcome->Ok_0->0@ == reply->0@,
{
}

/// The owner must authorize again exactly where no token is stored, where
/// the flag is up once the lock is held, or where the token endpoint has
/// rejected the refresh token. The flag is raised in the last case alone.
pub proof fn reauth_has_three_reasons(
    state: ServiceState,
    event: ServiceEvent,
    next: (ServiceState, ServiceAction),
)
    requires
        spotify_service::awaited(state@, event@),
        call_ensures(service_step, (state, event), next),
    ensures
        ({
            let rejected = event matches ServiceEvent::Refreshed {
                result: Err(TokenExchangeError::InvalidGrant),
                ..
            };
            let reauth = next.1 matches ServiceAction::Done {
                outcome: Err(ServiceError::NeedsReauth),
                ..
            };
            &&& reauth <==> {
                ||| event matches ServiceEvent::TokenRead(Ok(None))
                ||| event matches ServiceEvent::Locked { needs_reauth: true }
                ||| rejected
            }
            &&& (next.1 matches ServiceAction::Done { raise_flag: true, .. }) <==> rejected
        }),
{
}

/// A failure of storage, to read or to write, ends the call and is reported
/// as one; nothing else is.
pub proof fn storage_failures_are_reported(
    state: ServiceState,
    event: ServiceEvent,
    next: (ServiceState, ServiceAction),
)
    requires
        spotify_service::awaited(state@, event@),
        call_ensures(service_step, (state, event), next),
    ensures
        (next.1 matches ServiceAction::Done { outcome: Err(ServiceError::Repo(_)), .. }) <==> ((
        event matches ServiceEvent::TokenRead(Err(_))) || (event matches ServiceEvent::Stored(
            Err(_),
        ))),
        event matches ServiceEvent::TokenRead(Err(RepoError::Backend(s))) ==> (next.1
            matches ServiceAction::Done { outcome: Err(ServiceError::Repo(m)), .. } && m@
            == "storage backend error: "@ + s@),
        event matches ServiceEvent::Stored(Err(RepoError::Backend(s))) ==> (next.1
            matches ServiceAction::Done { outcome: Err(ServiceError::Repo(m)), .. } && m@
            == "storage backend error: "@ + s@),
{
}

/// A failure of upstream is reported in words: that of an attempt, but for
/// the first 401, and that of a refresh, but for a rejection. Nothing else
/// is reported so.
pub proof fn upstream_failures_are_reported(
    state: ServiceState,
    event: ServiceEvent,
    next: (ServiceState, ServiceAction),
)
    requires
        spotify_service::awaited(state@, event@),
        call_ensures(service_step, (state, event), next),
    ensures
        ({
            let expired = state is FirstCall && (event matches ServiceEvent::Called(
                Err(SpotifyError::Status(401)),
            ));
            let attempt_failed = (event matches ServiceEvent::Called(Err(_))) && !expired;
            let refresh_failed = (event matches ServiceEvent::Refreshed { result: Err(_), .. })
                && !(event matches ServiceEvent::Refreshed {
                result: Err(TokenExchangeError::InvalidGrant),
                ..
            });
            &&& (next.1 matches ServiceAction::Done { outcome: Err(ServiceError::Upstream(_)), .. })
                <==> attempt_failed || refresh_failed
            &&& attempt_failed ==> (next.1 matches ServiceAction::Done {
                outcome: Err(ServiceError::Upstream(m)),
                ..
            } && m@ == event->Called_0->Err_0@.message())
            &&& refresh_failed ==> (next.1 matches ServiceAction::Done {
                outcome: Err(ServiceError::Upstream(m)),
                ..
            } && m@ == event->result->Err_0@.message())
        }),
{
}

/// A stored token is used for the first attempt.
pub proof fn the_stored_token_is_tried(token: TokenRecord, next: (ServiceState, ServiceAction))
    requires
        call_ensures(
            service_step,
            (
                ServiceState::ReadingToken,
                ServiceEvent::TokenRead(Ok::<Option<TokenRecord>, RepoError>(Some(token))),
            ),
            next,
        ),
    ensures
        next.0 matches ServiceState::FirstCall(t) && t@ == token@,
        next.1 matches ServiceAction::Call(access) && access@ == token.access_token@,
{
}

/// Where the first attempt finds the token expired, the lock is taken, with
/// the token in hand.
pub proof fn an_expired_token_takes_the_lock(
    token: TokenRecord,
    next: (ServiceState, ServiceAction),
)
    requires
        call_ensures(
            service_step,
            (
                ServiceState::FirstCall(token),
                ServiceEvent::Called(Err::<Option<Json>, SpotifyError>(SpotifyError::Status(401))),
            ),
            next,
        ),
    ensures
        next.0 matches ServiceState::Locking(t) && t@ == token@,
        next.1 is Lock,
{
}

/// With the lock held and the flag down, the stored token is read again.
pub proof fn the_token_is_read_again_under_the_lock(
    token: TokenRecord,
    next: (ServiceState, ServiceAction),
)
    requires
        call_ensures(
            service_step,
            (ServiceState::Locking(token), ServiceEvent::Locked { needs_reauth: false }),
            next,
        ),
    ensures
        next.0 matches ServiceState::Rechecking(t) && t@ == token@,
        next.1 is ReadToken,
{
}

/// Where the stored access token has moved on, it is used for the retry;
/// where it has not, a refresh is asked for with the refresh token in hand.
pub proof fn refresh_only_what_has_not_moved_on(
    token: TokenRecord,
    latest: TokenRecord,
    next: (ServiceState, ServiceAction),
)
    requires
        call_ensures(
            service_step,
            (
                ServiceState::Rechecking(token),
                ServiceEvent::TokenRead(Ok::<Option<TokenRecord>, RepoError>(Some(latest))),
            ),
            next,
        ),
    ensures
        latest.access_token@ != token.access_token@ ==> next.0 is Retrying && (next.1
            matches ServiceAction::Call(access) && access@ == latest.access_token@),
        latest.access_token@ == token.access_token@ ==> (next.0 matches ServiceState::Refreshing(t)
            && t@ == token@) && (next.1 matches ServiceAction::Refresh(refresh) && refresh@
            == token.refresh_token@),
{
}

/// What a refresh brings is stored: the new access token; the new refresh
/// token and scope, or the old ones where there are none; an expiry that
/// lies as many seconds ahead as the token lives; for the same owner.
pub proof fn what_a_refresh_brings_is_stored(
    token: TokenRecord,
    refreshed: RefreshedTokens,
    now: Timestamp,
    next: (ServiceState, ServiceAction),
)
    requires
        now.can_add(refreshed.expires_in),
        call_ensures(
            service_step,
            (
                ServiceState::Refreshing(token),
                ServiceEvent::Refreshed {
                    result: Ok::<RefreshedTokens, TokenExchangeError>(refreshed),
                    now,
                },
            ),
            next,
        ),
    ensures
        next.0 matches ServiceState::Storing(access) && access@ == refreshed.access_token@,
        next.1 is Store,
        ({
            let record = next.1->Store_0;
            &&& record.access_token@ == refreshed.access_token@
            &&& record.refresh_token@ == match refreshed.refresh_token {
                Some(r) => r@,
                None => token.refresh_token@,
            }
            &&& record.scope@ == match refreshed.scope {
                Some(s) => s@,
                None => token.scope@,
            }
            &&& record.expires_at.secs - now.secs == refreshed.expires_in
            &&& record.expires_at.nanos == now.nanos
            &&& record.owner_id@ == token.owner_id@
        }),
{
}

/// Once the new tokens are stored, the call is made again with the new
/// access token.
pub proof fn stored_tokens_are_used(access: String, next: (ServiceState, ServiceAction))
    requires
        call_ensures(
            service_step,
            (ServiceState::Storing(access), ServiceEvent::Stored(Ok::<(), RepoError>(()))),
            next,
        ),
    ensures
        next.0 is Retrying,
        next.1 matches ServiceAction::Call(a) && a@ == access@,
{
}

/// Each event is awaited in the one state that it answers.
pub proof fn answers_come_to_their_questions(state: ServiceState, event: ServiceEvent)
    requires
        spotify_service::awaited(state@, event@),
    ensures
        event is TokenRead <==> state is ReadingToken || state is Rechecking,
        event is Called <==> state is FirstCall || state is Retrying,
        event is Locked <==> state is Locking,
        event is Refreshed <==> state is Refreshing,
        event is Stored <==> state is Storing,
{
}

/// The expiry of the tokens lies in the years -262143 to 262142.
pub open spec fn expiry_in_calendar(tokens: RefreshedTokens, now: Timestamp) -> bool {
    &&& -8_334_601_228_800 <= now.secs <= 8_210_266_876_799
    &&& now.nanos < 1_000_000_000
    &&& -8_334_601_228_800 <= now.secs + tokens.expires_in <= 8_210_266_876_799
}

/// Whatever comes of a step is taken, as long as the expiry of new tokens
/// lies in the calendar.
pub proof fn every_answer_is_taken(state: ServiceState, event: ServiceEvent)
    requires
        match event {
            ServiceEvent::TokenRead(_) => state is ReadingToken || state is Rechecking,
            ServiceEvent::Called(_) => state is FirstCall || state is Retrying,
            ServiceEvent::Locked { .. } => state is Locking,
            ServiceEvent::Refreshed { result: Ok(tokens), now } => state is Refreshing
                && expiry_in_calendar(tokens, now),
            ServiceEvent::Refreshed { .. } => state is Refreshing,
            ServiceEvent::Stored(_) => state is Storing,
        },
    ensures
        call_requires(service_step, (state, event)),
{
}

/// The lock is held from the second reading of the token until the new one
/// is stored, and at no other time.
pub proof fn the_lock_is_held_for_the_refresh(state: &ServiceState, held: bool)
    requires
        call_ensures(ServiceState::holds_lock, (state,), held),
    ensures
        held <==> *state is Rechecking || *state is Refreshing || *state is Storing,
{
}

/// The words of each failure.
pub proof fn failures_in_words(
    spotify: &SpotifyError,
    exchange: &TokenExchangeError,
    repo: &RepoError,
    a: String,
    b: String,
    c: String,
)
    requires
        call_ensures(SpotifyError::message, (spotify,), a),
        call_ensures(TokenExchangeError::message, (exchange,), b),
        call_ensures(RepoError::message, (repo,), c),
    ensures
        match *spotify {
            SpotifyError::Transport(s) => a@ == "spotify transport error: "@ + s@,
            SpotifyError::Status(n) => a@ == "spotify returned status "@ + text::decimal(n as nat),
            SpotifyError::Decode(s) => a@ == "spotify response decode failed: "@ + s@,
        },
        match *exchange {
            TokenExchangeError::InvalidGrant => b@
                == "refresh token rejected (invalid_grant) — reauthorization required"@,
            TokenExchangeError::Transport(s) => b@ == "token endpoint transport error: "@ + s@,
            TokenExchangeError::Status(n) => b@ == "token endpoint returned status "@
                + text::decimal(n as nat),
            TokenExchangeError::Decode(s) => b@ == "token endpoint response decode failed: "@ + s@,
        },
        match *repo {
            RepoError::Backend(s) => c@ == "storage backend error: "@ + s@,
        },
{
}

} // verus!
