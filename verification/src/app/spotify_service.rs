//! A call to the upstream API on the owner's behalf: read the stored access
//! token, make the call, and on a 401 refresh the token, store the new set
//! and retry once.
//!
//! The work around each decision (storage, calls, the lock) is done by the
//! caller, who reports what came of it; [`service_step`] decides what comes
//! next. The lock is taken at [`ServiceAction::Lock`] and held as long as
//! the state says so: see [`ServiceState::holds_lock`].

use vstd::prelude::*;

use crate::domain::oauth_client::{
    RefreshedTokens, RefreshedView, TokenExchangeError, TokenExchangeErrorView,
};
use crate::domain::spotify::{SpotifyError, SpotifyErrorView};
use crate::domain::tokens::{RepoError, RepoErrorView, TokenRecord, TokenView};
use crate::json::{Json, JsonView};
use crate::text::str_eq;
use crate::time::Timestamp;

verus! {

/// Why a call on the owner's behalf failed.
#[derive(Debug, PartialEq)]
pub enum ServiceError {
    /// No token is stored, or the refresh token is dead: only a fresh
    /// authorization by the owner recovers.
    NeedsReauth,
    /// The upstream API failed.
    Upstream(String),
    /// The token storage failed.
    Repo(String),
}

/// What a [`ServiceError`] holds.
pub enum ServiceErrorView {
    NeedsReauth,
    Upstream(Seq<char>),
    Repo(Seq<char>),
}

impl View for ServiceError {
    type V = ServiceErrorView;

    open spec fn view(&self) -> ServiceErrorView {
        match *self {
            ServiceError::NeedsReauth => ServiceErrorView::NeedsReauth,
            ServiceError::Upstream(s) => ServiceErrorView::Upstream(s@),
            ServiceError::Repo(s) => ServiceErrorView::Repo(s@),
        }
    }
}

/// What a call comes to: a reply, `Ok(None)` for one without content, or
/// the failure.
pub open spec fn outcome_view(outcome: Result<Option<Json>, ServiceError>) -> Result<
    Option<JsonView>,
    ServiceErrorView,
> {
    match outcome {
        Ok(Some(reply)) => Ok(Some(reply@)),
        Ok(None) => Ok(None),
        Err(e) => Err(e@),
    }
}

/// How far a call has come.
pub enum ServiceState {
    /// The stored token is being read.
    ReadingToken,
    /// The first attempt is under way with this token.
    FirstCall(TokenRecord),
    /// The attempt was refused; waiting for the lock.
    Locking(TokenRecord),
    /// With the lock, the stored token is being read again.
    Rechecking(TokenRecord),
    /// With the lock, the token is being refreshed.
    Refreshing(TokenRecord),
    /// With the lock, the new token set is being stored. Its access token
    /// is for the retry.
    Storing(String),
    /// The retry is under way.
    Retrying,
    /// Nothing is left to do.
    Finished,
}

/// What a [`ServiceState`] holds.
pub enum ServiceStateView {
    ReadingToken,
    FirstCall(TokenView),
    Locking(TokenView),
    Rechecking(TokenView),
    Refreshing(TokenView),
    Storing(Seq<char>),
    Retrying,
    Finished,
}

impl View for ServiceState {
    type V = ServiceStateView;

    open spec fn view(&self) -> ServiceStateView {
        match *self {
            ServiceState::ReadingToken => ServiceStateView::ReadingToken,
            ServiceState::FirstCall(t) => ServiceStateView::FirstCall(t@),
            ServiceState::Locking(t) => ServiceStateView::Locking(t@),
            ServiceState::Rechecking(t) => ServiceStateView::Rechecking(t@),
            ServiceState::Refreshing(t) => ServiceStateView::Refreshing(t@),
            ServiceState::Storing(a) => ServiceStateView::Storing(a@),
            ServiceState::Retrying => ServiceStateView::Retrying,
            ServiceState::Finished => ServiceStateView::Finished,
        }
    }
}

/// What came of the last action.
pub enum ServiceEvent {
    TokenRead(Result<Option<TokenRecord>, RepoError>),
    Called(Result<Option<Json>, SpotifyError>),
    /// The lock is held; the flag is read under it.
    Locked { needs_reauth: bool },
    Refreshed { result: Result<RefreshedTokens, TokenExchangeError>, now: Timestamp },
    Stored(Result<(), RepoError>),
}

/// What a [`ServiceEvent`] holds.
pub enum ServiceEventView {
    TokenRead(Result<Option<TokenView>, RepoErrorView>),
    Called(Result<Option<JsonView>, SpotifyErrorView>),
    Locked { needs_reauth: bool },
    Refreshed { result: Result<RefreshedView, TokenExchangeErrorView>, now: Timestamp },
    Stored(Result<(), RepoErrorView>),
}

/// What reading the stored token gave.
pub open spec fn read_view(read: Result<Option<TokenRecord>, RepoError>) -> Result<
    Option<TokenView>,
    RepoErrorView,
> {
    match read {
        Ok(Some(t)) => Ok(Some(t@)),
        Ok(None) => Ok(None),
        Err(e) => Err(e@),
    }
}

/// What a call to the upstream API gave.
pub open spec fn called_view(called: Result<Option<Json>, SpotifyError>) -> Result<
    Option<JsonView>,
    SpotifyErrorView,
> {
    match called {
        Ok(Some(j)) => Ok(Some(j@)),
        Ok(None) => Ok(None),
        Err(e) => Err(e@),
    }
}

/// What the token endpoint gave.
pub open spec fn refreshed_view(
    refreshed: Result<RefreshedTokens, TokenExchangeError>,
) -> Result<RefreshedView, TokenExchangeErrorView> {
    match refreshed {
        Ok(r) => Ok(r@),
        Err(e) => Err(e@),
    }
}

/// What storing a token set gave.
pub open spec fn stored_view(stored: Result<(), RepoError>) -> Result<(), RepoErrorView> {
    match stored {
        Ok(()) => Ok(()),
        Err(e) => Err(e@),
    }
}

impl View for ServiceEvent {
    type V = ServiceEventView;

    open spec fn view(&self) -> ServiceEventView {
        match *self {
            ServiceEvent::TokenRead(read) => ServiceEventView::TokenRead(read_view(read)),
            ServiceEvent::Called(called) => ServiceEventView::Called(called_view(called)),
            ServiceEvent::Locked { needs_reauth } => ServiceEventView::Locked { needs_reauth },
            ServiceEvent::Refreshed { result, now } => ServiceEventView::Refreshed {
                result: refreshed_view(result),
                now,
            },
            ServiceEvent::Stored(stored) => ServiceEventView::Stored(stored_view(stored)),
        }
    }
}

/// What to do next.
pub enum ServiceAction {
    /// Read the stored token.
    ReadToken,
    /// Make the call with this access token.
    Call(String),
    /// Take the lock and read the authorization flag.
    Lock,
    /// Ask the token endpoint for new tokens, with this refresh token.
    Refresh(String),
    /// Store this token set.
    Store(TokenRecord),
    /// Give back the outcome; first raise the authorization flag, where so
    /// told.
    Done { outcome: Result<Option<Json>, ServiceError>, raise_flag: bool },
}

/// What a [`ServiceAction`] holds.
pub enum ServiceActionView {
    ReadToken,
    Call(Seq<char>),
    Lock,
    Refresh(Seq<char>),
    Store(TokenView),
    Done { outcome: Result<Option<JsonView>, ServiceErrorView>, raise_flag: bool },
}

impl View for ServiceAction {
    type V = ServiceActionView;

    open spec fn view(&self) -> ServiceActionView {
        match *self {
            ServiceAction::ReadToken => ServiceActionView::ReadToken,
            ServiceAction::Call(a) => ServiceActionView::Call(a@),
            ServiceAction::Lock => ServiceActionView::Lock,
            ServiceAction::Refresh(r) => ServiceActionView::Refresh(r@),
            ServiceAction::Store(t) => ServiceActionView::Store(t@),
            ServiceAction::Done { outcome, raise_flag } => ServiceActionView::Done {
                outcome: outcome_view(outcome),
                raise_flag,
            },
        }
    }
}

/// The token set after a refresh: the new access token and expiry; the
/// refresh token and scope as issued, or as they were where none was
/// issued; the same owner.
pub open spec fn rotated(
    current: TokenView,
    refreshed: RefreshedView,
    now: Timestamp,
) -> TokenView {
    TokenView {
        access_token: refreshed.access_token,
        refresh_token: match refreshed.refresh_token {
            Some(r) => r,
            None => current.refresh_token,
        },
        expires_at: now.later(refreshed.expires_in),
        scope: match refreshed.scope {
            Some(s) => s,
            None => current.scope,
        },
        owner_id: current.owner_id,
    }
}

/// The end of a call that failed.
pub open spec fn failed(e: ServiceErrorView) -> (ServiceStateView, ServiceActionView) {
    (
        ServiceStateView::Finished,
        ServiceActionView::Done { outcome: Err(e), raise_flag: false },
    )
}

/// The end of a call that got a reply.
pub open spec fn replied(reply: Option<JsonView>) -> (ServiceStateView, ServiceActionView) {
    (
        ServiceStateView::Finished,
        ServiceActionView::Done { outcome: Ok(reply), raise_flag: false },
    )
}

/// The event is one that the state waits for. Where a refresh brought new
/// tokens, their expiry lies in the range of the calendar.
pub open spec fn awaited(state: ServiceStateView, event: ServiceEventView) -> bool {
    match (state, event) {
        (ServiceStateView::ReadingToken, ServiceEventView::TokenRead(_)) => true,
        (ServiceStateView::FirstCall(_), ServiceEventView::Called(_)) => true,
        (ServiceStateView::Locking(_), ServiceEventView::Locked { .. }) => true,
        (ServiceStateView::Rechecking(_), ServiceEventView::TokenRead(_)) => true,
        (ServiceStateView::Refreshing(_), ServiceEventView::Refreshed { result, now }) =>
            match result {
                Ok(refreshed) => now.can_add(refreshed.expires_in),
                Err(_) => true,
            },
        (ServiceStateView::Storing(_), ServiceEventView::Stored(_)) => true,
        (ServiceStateView::Retrying, ServiceEventView::Called(_)) => true,
        _ => false,
    }
}

/// How a call goes on from `state` once `event` has come.
pub open spec fn service_next(state: ServiceStateView, event: ServiceEventView) -> (
    ServiceStateView,
    ServiceActionView,
) {
    match (state, event) {
        (ServiceStateView::ReadingToken, ServiceEventView::TokenRead(read)) => match read {
            Err(e) => failed(ServiceErrorView::Repo(e.message())),
            Ok(None) => failed(ServiceErrorView::NeedsReauth),
            Ok(Some(token)) => (
                ServiceStateView::FirstCall(token),
                ServiceActionView::Call(token.access_token),
            ),
        },
        (ServiceStateView::FirstCall(token), ServiceEventView::Called(reply)) => match reply {
            Ok(reply) => replied(reply),
            Err(SpotifyErrorView::Status(401)) => (
                ServiceStateView::Locking(token),
                ServiceActionView::Lock,
            ),
            Err(e) => failed(ServiceErrorView::Upstream(e.message())),
        },
        (ServiceStateView::Locking(token), ServiceEventView::Locked { needs_reauth }) =>
            if needs_reauth {
                failed(ServiceErrorView::NeedsReauth)
            } else {
                (ServiceStateView::Rechecking(token), ServiceActionView::ReadToken)
            },
        (ServiceStateView::Rechecking(token), ServiceEventView::TokenRead(read)) => match read {
            Err(e) => failed(ServiceErrorView::Repo(e.message())),
            Ok(None) => failed(ServiceErrorView::NeedsReauth),
            Ok(Some(latest)) => if latest.access_token != token.access_token {
                (ServiceStateView::Retrying, ServiceActionView::Call(latest.access_token))
            } else {
                (
                    ServiceStateView::Refreshing(token),
                    ServiceActionView::Refresh(token.refresh_token),
                )
            },
        },
        (ServiceStateView::Refreshing(token), ServiceEventView::Refreshed { result, now }) =>
            match result {
                Ok(refreshed) => (
                    ServiceStateView::Storing(refreshed.access_token),
                    ServiceActionView::Store(rotated(token, refreshed, now)),
                ),
                Err(TokenExchangeErrorView::InvalidGrant) => (
                    ServiceStateView::Finished,
                    ServiceActionView::Done {
                        outcome: Err(ServiceErrorView::NeedsReauth),
                        raise_flag: true,
                    },
                ),
                Err(e) => failed(ServiceErrorView::Upstream(e.message())),
            },
        (ServiceStateView::Storing(access), ServiceEventView::Stored(stored)) => match stored {
            Ok(()) => (ServiceStateView::Retrying, ServiceActionView::Call(access)),
            Err(e) => failed(ServiceErrorView::Repo(e.message())),
        },
        (ServiceStateView::Retrying, ServiceEventView::Called(reply)) => match reply {
            Ok(reply) => replied(reply),
            Err(e) => failed(ServiceErrorView::Upstream(e.message())),
        },
        _ => arbitrary(),
    }
}

impl ServiceStateView {
    /// The lock is held in this state.
    pub open spec fn holds_lock(self) -> bool {
        self is Rechecking || self is Refreshing || self is Storing
    }
}

impl ServiceState {
    /// Whether the lock is held in this state. It is released on the way
    /// into a state that does not hold it.
    pub fn holds_lock(&self) -> (held: bool)
        ensures
            held == self@.holds_lock(),
    {
        match self {
            ServiceState::Rechecking(_)
            | ServiceState::Refreshing(_)
            | ServiceState::Storing(_) => true,
            _ => false,
        }
    }
}

fn fail(e: ServiceError) -> (next: (ServiceState, ServiceAction))
    ensures
        (next.0@, next.1@) == failed(e@),
{
    (ServiceState::Finished, ServiceAction::Done { outcome: Err(e), raise_flag: false })
}

fn reply_with(reply: Option<Json>) -> (next: (ServiceState, ServiceAction))
    ensures
        (next.0@, next.1@) == replied(match reply {
            Some(j) => Some(j@),
            None => None,
        }),
{
    (ServiceState::Finished, ServiceAction::Done { outcome: Ok(reply), raise_flag: false })
}

/// Start a call: the stored token is read first.
pub fn service_start() -> (next: (ServiceState, ServiceAction))
    ensures
        next.0@ == ServiceStateView::ReadingToken,
        next.1@ == ServiceActionView::ReadToken,
{
    (ServiceState::ReadingToken, ServiceAction::ReadToken)
}

/// Go on with a call once the awaited event has come.
pub fn service_step(state: ServiceState, event: ServiceEvent) -> (next: (
    ServiceState,
    ServiceAction,
))
    requires
        awaited(state@, event@),
    ensures
        (next.0@, next.1@) == service_next(state@, event@),
{
    match (state, event) {
        (ServiceState::ReadingToken, ServiceEvent::TokenRead(read)) => match read {
            Err(e) => fail(ServiceError::Repo(e.message())),
            Ok(None) => fail(ServiceError::NeedsReauth),
            Ok(Some(token)) => {
                let access = token.access_token.clone();
                (ServiceState::FirstCall(token), ServiceAction::Call(access))
            },
        },
        (ServiceState::FirstCall(token), ServiceEvent::Called(reply)) => match reply {
            Ok(reply) => reply_with(reply),
            Err(SpotifyError::Status(401)) => (ServiceState::Locking(token), ServiceAction::Lock),
            Err(e) => fail(ServiceError::Upstream(e.message())),
        },
        (ServiceState::Locking(token), ServiceEvent::Locked { needs_reauth }) => if needs_reauth {
            fail(ServiceError::NeedsReauth)
        } else {
            (ServiceState::Rechecking(token), ServiceAction::ReadToken)
        },
        (ServiceState::Rechecking(token), ServiceEvent::TokenRead(read)) => match read {
            Err(e) => fail(ServiceError::Repo(e.message())),
            Ok(None) => fail(ServiceError::NeedsReauth),
            Ok(Some(latest)) => if !str_eq(
                latest.access_token.as_str(),
                token.access_token.as_str(),
            ) {
                (ServiceState::Retrying, ServiceAction::Call(latest.access_token))
            } else {
                let refresh = token.refresh_token.clone();
                (ServiceState::Refreshing(token), ServiceAction::Refresh(refresh))
            },
        },
        (ServiceState::Refreshing(token), ServiceEvent::Refreshed { result, now }) => match result {
            Ok(refreshed) => {
                let access = refreshed.access_token.clone();
                let record = rotate(token, refreshed, now);
                (ServiceState::Storing(access), ServiceAction::Store(record))
            },
            Err(TokenExchangeError::InvalidGrant) => (
                ServiceState::Finished,
                ServiceAction::Done { outcome: Err(ServiceError::NeedsReauth), raise_flag: true },
            ),
            Err(e) => fail(ServiceError::Upstream(e.message())),
        },
        (ServiceState::Storing(access), ServiceEvent::Stored(stored)) => match stored {
            Ok(()) => (ServiceState::Retrying, ServiceAction::Call(access)),
            Err(e) => fail(ServiceError::Repo(e.message())),
        },
        (ServiceState::Retrying, ServiceEvent::Called(reply)) => match reply {
            Ok(reply) => reply_with(reply),
            Err(e) => fail(ServiceError::Upstream(e.message())),
        },
        _ => {
            assert(false);
            fail(ServiceError::NeedsReauth)
        },
    }
}

fn rotate(current: TokenRecord, refreshed: RefreshedTokens, now: Timestamp) -> (record: TokenRecord)
    requires
        now.can_add(refreshed.expires_in),
    ensures
        record@ == rotated(current@, refreshed@, now),
{
    TokenRecord {
        access_token: refreshed.access_token,
        refresh_token: match refreshed.refresh_token {
            Some(r) => r,
            None => current.refresh_token,
        },
        expires_at: now.plus_seconds(refreshed.expires_in),
        scope: match refreshed.scope {
            Some(s) => s,
            None => current.scope,
        },
        owner_id: current.owner_id,
    }
}

} // verus!
