//! What holds of every call on the owner's behalf.

use vstd::prelude::*;

use crate::app::spotify_service::{
    self, ServiceActionView, ServiceErrorView, ServiceEventView, ServiceStateView,
};
use crate::domain::oauth_client::{RefreshedView, TokenExchangeErrorView};
use crate::domain::tokens::TokenView;
use crate::time::Timestamp;

verus! {

/// Every event is one that the call waits for when it comes.
pub open spec fn follows(state: ServiceStateView, events: Seq<ServiceEventView>) -> bool
    decreases events.len(),
{
    events.len() > 0 ==> {
        &&& spotify_service::awaited(state, events[0])
        &&& follows(spotify_service::service_next(state, events[0]).0, events.skip(1))
    }
}

/// The actions that the events lead to, in order.
pub open spec fn actions(state: ServiceStateView, events: Seq<ServiceEventView>) -> Seq<
    ServiceActionView,
>
    decreases events.len(),
{
    if events.len() == 0 {
        Seq::empty()
    } else {
        let (next, action) = spotify_service::service_next(state, events[0]);
        seq![action] + actions(next, events.skip(1))
    }
}

/// How many of the actions call the upstream API.
pub open spec fn calls(actions: Seq<ServiceActionView>) -> nat
    decreases actions.len(),
{
    if actions.len() == 0 {
        0
    } else {
        calls(actions.skip(1)) + if actions[0] is Call {
            1nat
        } else {
            0
        }
    }
}

/// How many of the actions ask the token endpoint.
pub open spec fn refreshes(actions: Seq<ServiceActionView>) -> nat
    decreases actions.len(),
{
    if actions.len() == 0 {
        0
    } else {
        refreshes(actions.skip(1)) + if actions[0] is Refresh {
            1nat
        } else {
            0
        }
    }
}

/// How many events a call can still wait for.
pub open spec fn steps_left(state: ServiceStateView) -> nat {
    match state {
        ServiceStateView::ReadingToken => 7,
        ServiceStateView::FirstCall(_) => 6,
        ServiceStateView::Locking(_) => 5,
        ServiceStateView::Rechecking(_) => 4,
        ServiceStateView::Refreshing(_) => 3,
        ServiceStateView::Storing(_) => 2,
        ServiceStateView::Retrying => 1,
        ServiceStateView::Finished => 0,
    }
}

spec fn calls_left(state: ServiceStateView) -> nat {
    match state {
        ServiceStateView::ReadingToken => 2,
        ServiceStateView::Retrying | ServiceStateView::Finished => 0,
        _ => 1,
    }
}

spec fn refreshes_left(state: ServiceStateView) -> nat {
    match state {
        ServiceStateView::ReadingToken
        | ServiceStateView::FirstCall(_)
        | ServiceStateView::Locking(_)
        | ServiceStateView::Rechecking(_) => 1,
        _ => 0,
    }
}

proof fn lemma_left(state: ServiceStateView, events: Seq<ServiceEventView>)
    requires
        follows(state, events),
    ensures
        events.len() <= steps_left(state),
        calls(actions(state, events)) <= calls_left(state),
        refreshes(actions(state, events)) <= refreshes_left(state),
    decreases events.len(),
{
    if events.len() > 0 {
        let (next, action) = spotify_service::service_next(state, events[0]);
        lemma_left(next, events.skip(1));
        let all = actions(state, events);
        assert(all.skip(1) =~= actions(next, events.skip(1)));
        assert(all[0] == action);
    }
}

/// Whatever happens, a call ends after at most seven events, calls the
/// upstream API at most twice and asks the token endpoint at most once:
/// there is one retry and no loop.
pub proof fn one_retry_at_most(events: Seq<ServiceEventView>)
    requires
        follows(ServiceStateView::ReadingToken, events),
    ensures
        events.len() <= 7,
        calls(actions(ServiceStateView::ReadingToken, events)) <= 2,
        refreshes(actions(ServiceStateView::ReadingToken, events)) <= 1,
{
    lemma_left(ServiceStateView::ReadingToken, events);
}

/// A step gives back an outcome exactly where it ends the call.
pub proof fn done_ends_the_call(state: ServiceStateView, event: ServiceEventView)
    requires
        spotify_service::awaited(state, event),
    ensures
        spotify_service::service_next(state, event).0 is Finished
            <==> spotify_service::service_next(state, event).1 is Done,
{
}

/// The token endpoint is asked, and tokens are stored, only with the lock
/// held; the upstream API is called only without it.
pub proof fn refresh_under_lock(state: ServiceStateView, event: ServiceEventView)
    requires
        spotify_service::awaited(state, event),
    ensures
        ({
            let (next, action) = spotify_service::service_next(state, event);
            &&& action is Refresh || action is Store ==> state.holds_lock() && next.holds_lock()
            &&& action is Call || action is Done || action is Lock ==> !next.holds_lock()
        }),
{
}

/// The authorization flag is raised exactly where the refresh token was
/// rejected. Then the owner must authorize again, and the stored tokens
/// stay as they are: the call ends without storing any.
pub proof fn flag_on_rejection(state: ServiceStateView, event: ServiceEventView)
    requires
        spotify_service::awaited(state, event),
    ensures
        ({
            let (next, action) = spotify_service::service_next(state, event);
            let raised = action matches ServiceActionView::Done { raise_flag, .. } && raise_flag;
            let rejected = event matches ServiceEventView::Refreshed { result, .. } && result
                == Err::<RefreshedView, TokenExchangeErrorView>(
                TokenExchangeErrorView::InvalidGrant,
            );
            &&& raised <==> rejected
            &&& rejected ==> next is Finished && action == (ServiceActionView::Done {
                outcome: Err(ServiceErrorView::NeedsReauth),
                raise_flag: true,
            })
        }),
{
}

/// A token set that is stored after a refresh is the one the retry uses,
/// and belongs to the same owner. Without a new refresh token the old one
/// stays.
pub proof fn retry_with_stored_token(
    token: TokenView,
    refreshed: RefreshedView,
    now: Timestamp,
)
    requires
        now.can_add(refreshed.expires_in),
    ensures
        ({
            let (storing, action) = spotify_service::service_next(
                ServiceStateView::Refreshing(token),
                ServiceEventView::Refreshed { result: Ok(refreshed), now },
            );
            let record = action->Store_0;
            &&& action is Store
            &&& record.owner_id == token.owner_id
            &&& refreshed.refresh_token is None ==> record.refresh_token == token.refresh_token
            &&& spotify_service::service_next(storing, ServiceEventView::Stored(Ok(()))).1
                == ServiceActionView::Call(record.access_token)
        }),
{
}

/// What concurrent calls share: the stored tokens and the authorization
/// flag.
pub struct Shared {
    pub stored: TokenView,
    pub flag: bool,
}

/// What one call does under the lock.
pub struct Section {
    /// What is shared afterwards.
    pub shared: Shared,
    /// How often it asked the token endpoint.
    pub refreshes: nat,
    /// What it does when it has released the lock.
    pub leaves_with: ServiceActionView,
}

/// What a call that was refused with `token` does once it has the lock,
/// where the token endpoint would answer `answer` and storage works.
pub open spec fn section(
    shared: Shared,
    token: TokenView,
    answer: Result<RefreshedView, TokenExchangeErrorView>,
    now: Timestamp,
) -> Section {
    let (locked, first) = spotify_service::service_next(
        ServiceStateView::Locking(token),
        ServiceEventView::Locked { needs_reauth: shared.flag },
    );
    if first is Done {
        Section { shared, refreshes: 0, leaves_with: first }
    } else {
        let (read, second) = spotify_service::service_next(
            locked,
            ServiceEventView::TokenRead(Ok(Some(shared.stored))),
        );
        if second is Call {
            Section { shared, refreshes: 0, leaves_with: second }
        } else {
            let (refreshed, third) = spotify_service::service_next(
                read,
                ServiceEventView::Refreshed { result: answer, now },
            );
            match third {
                ServiceActionView::Store(record) => Section {
                    shared: Shared { stored: record, flag: shared.flag },
                    refreshes: 1,
                    leaves_with: spotify_service::service_next(
                        refreshed,
                        ServiceEventView::Stored(Ok(())),
                    ).1,
                },
                ServiceActionView::Done { raise_flag, .. } => Section {
                    shared: Shared { stored: shared.stored, flag: shared.flag || raise_flag },
                    refreshes: 1,
                    leaves_with: third,
                },
                _ => arbitrary(),
            }
        }
    }
}

/// How often the token endpoint is asked in all, where calls that were
/// refused with `tokens` take the lock one after another, and the endpoint
/// would answer the i-th of them with `answers[i]`.
pub open spec fn total_refreshes(
    shared: Shared,
    tokens: Seq<TokenView>,
    answers: Seq<Result<RefreshedView, TokenExchangeErrorView>>,
    now: Timestamp,
) -> nat
    decreases tokens.len(),
{
    if tokens.len() == 0 {
        0
    } else {
        let first = section(shared, tokens[0], answers[0], now);
        first.refreshes + total_refreshes(first.shared, tokens.skip(1), answers.skip(1), now)
    }
}

/// Once the stored token has moved on, or the flag is up, no call asks the
/// token endpoint.
proof fn lemma_settled(
    shared: Shared,
    tokens: Seq<TokenView>,
    answers: Seq<Result<RefreshedView, TokenExchangeErrorView>>,
    now: Timestamp,
)
    requires
        answers.len() == tokens.len(),
        shared.flag || forall|i: int|
            0 <= i < tokens.len() ==> (#[trigger] tokens[i]).access_token
                != shared.stored.access_token,
    ensures
        total_refreshes(shared, tokens, answers, now) == 0,
    decreases tokens.len(),
{
    if tokens.len() > 0 {
        let first = section(shared, tokens[0], answers[0], now);
        assert(first.shared == shared);
        assert forall|i: int| 0 <= i < tokens.skip(1).len() && !shared.flag implies (
        #[trigger] tokens.skip(1)[i]).access_token != shared.stored.access_token by {
            assert(tokens.skip(1)[i] == tokens[i + 1]);
        }
        lemma_settled(shared, tokens.skip(1), answers.skip(1), now);
    }
}

/// Single flight: where any number of concurrent calls were refused with
/// the stored access token, and the first of them to get the lock gets a
/// new one or is rejected for good, the token endpoint is asked exactly
/// once.
pub proof fn single_flight(
    shared: Shared,
    tokens: Seq<TokenView>,
    answers: Seq<Result<RefreshedView, TokenExchangeErrorView>>,
    now: Timestamp,
)
    requires
        tokens.len() > 0,
        answers.len() == tokens.len(),
        !shared.flag,
        forall|i: int|
            0 <= i < tokens.len() ==> (#[trigger] tokens[i]).access_token
                == shared.stored.access_token,
        match answers[0] {
            Ok(refreshed) => refreshed.access_token != shared.stored.access_token,
            Err(e) => e == TokenExchangeErrorView::InvalidGrant,
        },
    ensures
        total_refreshes(shared, tokens, answers, now) == 1,
{
    let first = section(shared, tokens[0], answers[0], now);
    assert forall|i: int| 0 <= i < tokens.skip(1).len() && !first.shared.flag implies (
    #[trigger] tokens.skip(1)[i]).access_token != first.shared.stored.access_token by {
        assert(tokens.skip(1)[i] == tokens[i + 1]);
    }
    lemma_settled(first.shared, tokens.skip(1), answers.skip(1), now);
}

/// A call that gets the lock after another has stored new tokens retries
/// with those; one that gets it after a rejection gives up. Neither asks
/// the token endpoint, whatever it would answer.
pub proof fn latecomers_reuse(
    shared: Shared,
    token: TokenView,
    answer: Result<RefreshedView, TokenExchangeErrorView>,
    now: Timestamp,
)
    requires
        shared.flag || shared.stored.access_token != token.access_token,
    ensures
        section(shared, token, answer, now) == (Section {
            shared,
            refreshes: 0,
            leaves_with: if shared.flag {
                ServiceActionView::Done {
                    outcome: Err(ServiceErrorView::NeedsReauth),
                    raise_flag: false,
                }
            } else {
                ServiceActionView::Call(shared.stored.access_token)
            },
        }),
{
}

} // verus!
