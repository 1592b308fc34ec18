//! The data plane. A request is answered from the snapshot; before the
//! first scheduler tick has stored one, a single fetch fills it.

use vstd::prelude::*;

use crate::app::scheduler::{self, FetchError, FetchErrorView};
use crate::app::snapshots::{EndpointKind, Snapshots};
use crate::json::{Json, JsonView};
use crate::routes::reply::{self, error_reply, json_reply, Reply, ReplyView};

verus! {

/// What is done with a request.
pub enum Serve {
    /// It is answered.
    Answer(Reply),
    /// Its payload is fetched; [`serve_fetched`] then answers.
    Fetch,
}

/// What a [`Serve`] holds.
pub enum ServeView {
    Answer(ReplyView),
    Fetch,
}

impl View for Serve {
    type V = ServeView;

    open spec fn view(&self) -> ServeView {
        match *self {
            Serve::Answer(reply) => ServeView::Answer(reply@),
            Serve::Fetch => ServeView::Fetch,
        }
    }
}

/// What is done with a request, given the authorization flag, the kill
/// switch and the endpoint's snapshot.
pub open spec fn serve_view(
    needs_reauth: bool,
    enabled: bool,
    snapshot: Option<JsonView>,
) -> ServeView {
    if needs_reauth {
        ServeView::Answer(reply::with_error(503, "needs_reauth"@))
    } else {
        match snapshot {
            Some(payload) => ServeView::Answer(reply::with_json(200, payload)),
            None => if enabled {
                ServeView::Fetch
            } else {
                ServeView::Answer(reply::with_error(503, "upstream_unavailable"@))
            },
        }
    }
}

/// The answer to a request whose fetch failed.
pub open spec fn failure_view(e: FetchErrorView) -> ReplyView {
    match e {
        FetchErrorView::NeedsReauth => reply::with_error(503, "needs_reauth"@),
        FetchErrorView::Upstream(_) => reply::with_error(503, "upstream_unavailable"@),
        FetchErrorView::Repo(_) => reply::with_error(500, "repo"@),
    }
}

/// The answer to a request after its fetch.
pub open spec fn fetched_reply(fetched: Result<JsonView, FetchErrorView>) -> ReplyView {
    match fetched {
        Ok(payload) => reply::with_json(200, payload),
        Err(e) => failure_view(e),
    }
}

/// Decide what is done with a request. While the owner must authorize
/// again it is refused, snapshot or not; while the kill switch is off only
/// a snapshot is served.
pub fn serve(
    kind: EndpointKind,
    needs_reauth: bool,
    enabled: bool,
    snapshots: &Snapshots,
) -> (decision: Serve)
    ensures
        decision@ == serve_view(needs_reauth, enabled, snapshots.stored(kind)),
{
    if needs_reauth {
        return Serve::Answer(error_reply(503, "needs_reauth"));
    }
    match snapshots.get(kind) {
        Some(payload) => Serve::Answer(json_reply(200, payload)),
        None => if enabled {
            Serve::Fetch
        } else {
            Serve::Answer(error_reply(503, "upstream_unavailable"))
        },
    }
}

/// The answer to a request whose fetch failed.
pub fn fetch_error_to_response(e: &FetchError) -> (r: Reply)
    ensures
        r@ == failure_view(e@),
{
    match e {
        FetchError::NeedsReauth => error_reply(503, "needs_reauth"),
        FetchError::Upstream(_) => error_reply(503, "upstream_unavailable"),
        FetchError::Repo(_) => error_reply(500, "repo"),
    }
}

/// Answer a request after its fetch. A payload is stored for the requests
/// to come; a failure changes no snapshot.
pub fn serve_fetched(
    kind: EndpointKind,
    snapshots: &mut Snapshots,
    fetched: Result<Json, FetchError>,
) -> (r: Reply)
    ensures
        r@ == fetched_reply(scheduler::fetched_view(fetched)),
        final(snapshots).stored(kind) == match fetched {
            Ok(payload) => Some(payload@),
            Err(_) => old(snapshots).stored(kind),
        },
        forall|other: EndpointKind|
            other != kind ==> #[trigger] final(snapshots).stored(other) == old(snapshots).stored(
                other,
            ),
{
    match fetched {
        Ok(payload) => {
            let copy = payload.copy();
            snapshots.set(kind, Some(payload));
            json_reply(200, copy)
        },
        Err(e) => fetch_error_to_response(&e),
    }
}

/// Upstream is asked only where the owner is authorized, the kill switch is
/// on and there is no snapshot.
pub proof fn fetch_on_cold_start_only(
    needs_reauth: bool,
    enabled: bool,
    snapshot: Option<JsonView>,
)
    ensures
        serve_view(needs_reauth, enabled, snapshot) is Fetch <==> !needs_reauth && enabled
            && snapshot is None,
{
}

/// While the owner must authorize again, every request is answered 503,
/// whatever is stored.
pub proof fn reauth_refuses_all(enabled: bool, snapshot: Option<JsonView>)
    ensures
        serve_view(true, enabled, snapshot) == ServeView::Answer(
            reply::with_error(503, "needs_reauth"@),
        ),
{
}

/// What a cold start answered, and so stored, the next request is answered
/// from the snapshot, with the same payload and without a fetch.
pub proof fn served_again_from_snapshot(payload: JsonView, enabled: bool)
    ensures
        serve_view(false, enabled, Some(payload)) == ServeView::Answer(fetched_reply(Ok(payload))),
{
}

} // verus!
