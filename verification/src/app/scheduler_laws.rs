//! What a fetch asks for and what it ends with, and how a loop turns.

use vstd::prelude::*;

use crate::app::mapper_laws;
use crate::app::scheduler::{
    self, fetch_start, fetch_step, tag_mock, tick_start, tick_step, FetchAction, FetchError,
    FetchState, TickAction, TickEvent, TickState,
};
use crate::app::snapshots::EndpointKind;
use crate::app::spotify_service::ServiceError;
use crate::app::v1_mapper;
use crate::json::{Json, JsonView};
use crate::json_laws;

verus! {

/// The payload says that it was made from canned data exactly where it was.
pub open spec fn marked(payload: JsonView, mock: bool) -> bool {
    if mock {
        json_laws::at(payload, "_mock"@) == JsonView::Bool(true)
    } else {
        !json_laws::keys_of(payload).contains("_mock"@)
    }
}

/// The mark adds one member to an object and changes no other; without it
/// the payload stays as it is.
pub proof fn the_mark_changes_nothing_else(
    mock: bool,
    payload: Json,
    served: Json,
    key: Seq<char>,
)
    requires
        call_ensures(tag_mock, (mock, payload), served),
    ensures
        !mock ==> served@ == payload@,
        !(payload@ is Obj) ==> served@ == payload@,
        mock && payload@ is Obj ==> json_laws::at(served@, "_mock"@) == JsonView::Bool(true),
        key != "_mock"@ ==> json_laws::at(served@, key) == json_laws::at(payload@, key)
            && json_laws::keys_of(served@).contains(key) == json_laws::keys_of(payload@).contains(
            key,
        ),
{
}

/// Each endpoint asks upstream for its own data.
pub proof fn each_endpoint_asks_for_its_own(kind: EndpointKind, first: (FetchState, FetchAction))
    requires
        call_ensures(fetch_start, (kind,), first),
    ensures
        first.1 is Get,
        first.1->Get_0@ == match kind {
            EndpointKind::Now => "/v1/me/player"@,
            EndpointKind::Recent => "/v1/me/player/recently-played?limit=20"@,
            EndpointKind::Top => "/v1/me/top/tracks?time_range=short_term&limit=10"@,
            EndpointKind::Profile => "/v1/me"@,
            EndpointKind::Playlists => "/v1/me/playlists?limit=20"@,
        },
        !(first.0 is Finished),
{
}

/// The fetch ended with this payload.
pub open spec fn ended_with(end: (FetchState, FetchAction), payload: JsonView) -> bool {
    &&& end.0 is Finished
    &&& end.1 matches FetchAction::Done(Ok(j)) && j@ == payload
}

/// What the fetch of an endpoint ended with; meant for one that succeeded.
pub open spec fn payload_of(end: (FetchState, FetchAction)) -> JsonView {
    match end.1 {
        FetchAction::Done(Ok(j)) => j@,
        _ => JsonView::Null,
    }
}

/// The payload shows the upstream reply, in the way of this endpoint.
pub open spec fn shows(kind: EndpointKind, payload: JsonView, raw: JsonView) -> bool {
    match kind {
        EndpointKind::Now => mapper_laws::shows_player(payload, raw),
        EndpointKind::Recent => mapper_laws::shows_recent(payload, raw),
        EndpointKind::Top => mapper_laws::shows_top(payload, raw),
        EndpointKind::Playlists => mapper_laws::shows_playlists(payload, raw),
        EndpointKind::Profile => true,
    }
}

proof fn lemma_tag_keeps(kind: EndpointKind, payload: JsonView, raw: JsonView, mock: bool)
    requires
        shows(kind, payload, raw),
        payload is Obj,
        !json_laws::keys_of(payload).contains("_mock"@),
    ensures
        shows(kind, scheduler::tagged(mock, payload), raw),
        marked(scheduler::tagged(mock, payload), mock),
{
    mapper_laws::lemma_mock_key();
}

/// A fetch of the player, the recent or the top tracks or the playlists
/// ends with the first reply: it shows that very reply, and is marked where
/// it is canned.
pub proof fn a_reply_is_shown(
    kind: EndpointKind,
    first: (FetchState, FetchAction),
    raw: Json,
    mock: bool,
    end: (FetchState, FetchAction),
)
    requires
        kind != EndpointKind::Profile,
        call_ensures(fetch_start, (kind,), first),
        call_ensures(fetch_step, (first.0, Ok::<Option<Json>, ServiceError>(Some(raw)), mock), end),
    ensures
        ended_with(end, payload_of(end)),
        shows(kind, payload_of(end), raw@),
        marked(payload_of(end), mock),
{
    match kind {
        EndpointKind::Now => {
            mapper_laws::lemma_now(raw@);
            lemma_tag_keeps(kind, v1_mapper::now_payload(raw@), raw@, mock);
        },
        EndpointKind::Recent => {
            mapper_laws::lemma_recent(raw@);
            lemma_tag_keeps(kind, v1_mapper::recent_payload(raw@), raw@, mock);
        },
        EndpointKind::Top => {
            mapper_laws::lemma_top(raw@);
            lemma_tag_keeps(kind, v1_mapper::top_payload(raw@), raw@, mock);
        },
        EndpointKind::Playlists => {
            mapper_laws::lemma_playlists(raw@);
            lemma_tag_keeps(kind, v1_mapper::playlists_payload(raw@), raw@, mock);
        },
        EndpointKind::Profile => {},
    }
}

/// A reply without content ends such a fetch too: with a player that does
/// not play, or with no items, and with a total of zero for the playlists.
pub proof fn no_content_shows_nothing(
    kind: EndpointKind,
    first: (FetchState, FetchAction),
    mock: bool,
    end: (FetchState, FetchAction),
)
    requires
        kind != EndpointKind::Profile,
        call_ensures(fetch_start, (kind,), first),
        call_ensures(fetch_step, (first.0, Ok::<Option<Json>, ServiceError>(None), mock), end),
    ensures
        ended_with(end, payload_of(end)),
        marked(payload_of(end), mock),
        kind == EndpointKind::Now ==> json_laws::at(payload_of(end), "playing"@)
            == JsonView::Bool(false) && !json_laws::keys_of(payload_of(end)).contains("track"@),
        kind != EndpointKind::Now ==> json_laws::at(payload_of(end), "items"@) == JsonView::Arr(
            Seq::empty(),
        ),
        kind == EndpointKind::Top ==> json_laws::at(payload_of(end), "range"@) == JsonView::Str(
            "short_term"@,
        ),
        kind == EndpointKind::Playlists ==> json_laws::at(payload_of(end), "total"@)
            == mapper_laws::num(0),
{
    mapper_laws::lemma_mock_key();
    mapper_laws::lemma_now(JsonView::Null);
    mapper_laws::lemma_recent(scheduler::no_items());
    mapper_laws::lemma_top(scheduler::no_items());
    mapper_laws::lemma_playlists(scheduler::no_playlists());
    let payload = payload_of(end);
    if kind != EndpointKind::Now {
        let plain = match kind {
            EndpointKind::Recent => v1_mapper::recent_payload(scheduler::no_items()),
            EndpointKind::Top => v1_mapper::top_payload(scheduler::no_items()),
            _ => v1_mapper::playlists_payload(scheduler::no_playlists()),
        };
        let raw = if kind == EndpointKind::Playlists {
            scheduler::no_playlists()
        } else {
            scheduler::no_items()
        };
        lemma_tag_keeps(kind, plain, raw, mock);
        assert(payload == scheduler::tagged(mock, plain));
        assert(json_laws::items_at(payload, "items"@) =~= Seq::empty());
    }
}

/// A fetch whose call failed ends with that failure: of the same kind, in
/// the same words.
pub proof fn a_failure_is_passed_on(
    kind: EndpointKind,
    first: (FetchState, FetchAction),
    e: ServiceError,
    mock: bool,
    end: (FetchState, FetchAction),
)
    requires
        call_ensures(fetch_start, (kind,), first),
        call_ensures(fetch_step, (first.0, Err::<Option<Json>, ServiceError>(e), mock), end),
    ensures
        end.0 is Finished,
        match e {
            ServiceError::NeedsReauth => end.1 matches FetchAction::Done(
                Err(FetchError::NeedsReauth),
            ),
            ServiceError::Upstream(s) => end.1 matches FetchAction::Done(
                Err(FetchError::Upstream(t)),
            ) && t@ == s@,
            ServiceError::Repo(s) => end.1 matches FetchAction::Done(Err(FetchError::Repo(t)))
                && t@ == s@,
        },
{
}

/// The number that a reply brings: the one under `total`, of the given
/// member or of the reply itself; zero where it brings none.
pub open spec fn count_of(
    reply: Result<Option<Json>, ServiceError>,
    member: Option<Seq<char>>,
) -> u64 {
    match reply {
        Ok(Some(page)) => match member {
            Some(key) => json_laws::count_at(json_laws::at(page@, key), "total"@),
            None => json_laws::count_at(page@, "total"@),
        },
        _ => 0,
    }
}

/// The profile takes two calls more: for the number of followed artists and
/// for the number of playlists. Whatever becomes of these, it ends with the
/// profile, the counts, or zero where there is none.
pub proof fn the_profile_takes_three_calls(
    first: (FetchState, FetchAction),
    me: Json,
    second: (FetchState, FetchAction),
    following: Result<Option<Json>, ServiceError>,
    third: (FetchState, FetchAction),
    playlists: Result<Option<Json>, ServiceError>,
    mock: bool,
    end: (FetchState, FetchAction),
)
    requires
        call_ensures(fetch_start, (EndpointKind::Profile,), first),
        call_ensures(
            fetch_step,
            (first.0, Ok::<Option<Json>, ServiceError>(Some(me)), mock),
            second,
        ),
        call_ensures(fetch_step, (second.0, following, mock), third),
        call_ensures(fetch_step, (third.0, playlists, mock), end),
    ensures
        second.1 matches FetchAction::Get(path) && path@
            == "/v1/me/following?type=artist&limit=1"@,
        third.1 matches FetchAction::Get(path) && path@ == "/v1/me/playlists?limit=1"@,
        ended_with(end, payload_of(end)),
        mapper_laws::shows_profile(
            payload_of(end),
            me@,
            count_of(following, Some("artists"@)),
            count_of(playlists, None),
        ),
        marked(payload_of(end), mock),
{
    mapper_laws::lemma_mock_key();
    mapper_laws::lemma_profile(
        me@,
        count_of(following, Some("artists"@)),
        count_of(playlists, None),
    );
}

/// A profile without content is a failure of upstream.
pub proof fn a_profile_needs_content(
    first: (FetchState, FetchAction),
    mock: bool,
    end: (FetchState, FetchAction),
)
    requires
        call_ensures(fetch_start, (EndpointKind::Profile,), first),
        call_ensures(fetch_step, (first.0, Ok::<Option<Json>, ServiceError>(None), mock), end),
    ensures
        end.1 matches FetchAction::Done(Err(FetchError::Upstream(s))) && s@
            == "/v1/me returned 204"@,
{
}

/// The words of a failure name its kind, and end with its detail.
pub proof fn failures_are_named(e: &FetchError, m: String)
    requires
        call_ensures(FetchError::message, (e,), m),
    ensures
        match *e {
            FetchError::NeedsReauth => m@ == "needs_reauth"@,
            FetchError::Upstream(s) => m@ == "upstream: "@ + s@,
            FetchError::Repo(s) => m@ == "repo: "@ + s@,
        },
{
}

/// A loop takes its turn: with its wait registered it looks for activity,
/// and parks where there is none. It reads the flags, fetches where both of
/// them allow it, stores what it fetched, sleeps, and begins anew.
pub proof fn a_turn_of_the_loop(
    kind: EndpointKind,
    state: TickState,
    event: TickEvent,
    next: (TickState, TickAction),
    begin: (TickState, TickAction),
)
    requires
        scheduler::tick_awaited(state, event),
        call_ensures(tick_step, (kind, state, event), next),
        call_ensures(tick_start, (), begin),
    ensures
        begin.0 is Registering && begin.1 is Register,
        match event {
            TickEvent::Registered => next.0 is Gate && next.1 is ReadGate,
            TickEvent::GateRead { active: true } => next.0 is Flags && next.1 is ReadFlags,
            TickEvent::GateRead { active: false } => next.0 is Parked && next.1 is Park,
            TickEvent::Woken => next.0 is Flags && next.1 is ReadFlags,
            TickEvent::FlagsRead { needs_reauth: false, enabled: true } => next.0 is Fetching
                && next.1 == TickAction::Fetch(kind),
            TickEvent::FlagsRead { .. } => next.0 is Sleeping && next.1 is Sleep,
            TickEvent::Fetched(Ok(payload)) => next.0 is Sleeping && (next.1
                matches TickAction::StoreThenSleep(k, j) && k == kind && j@ == payload@),
            TickEvent::Fetched(Err(_)) => next.0 is Sleeping && next.1 is LogThenSleep,
            TickEvent::Slept => next.0 is Registering && next.1 is Register,
        },
{
}

/// An event is awaited where it is what comes of the step before, and
/// nowhere else.
pub proof fn events_come_in_their_turn(state: TickState, event: TickEvent)
    requires
        scheduler::tick_awaited(state, event),
    ensures
        event is Registered <==> state is Registering,
        event is GateRead <==> state is Gate,
        event is Woken <==> state is Parked,
        event is FlagsRead <==> state is Flags,
        event is Fetched <==> state is Fetching,
        event is Slept <==> state is Sleeping,
{
}

/// Whatever comes of a step of the loop is taken, and so is whatever comes
/// back for a fetch that has not ended.
pub proof fn every_event_is_taken(
    kind: EndpointKind,
    state: TickState,
    event: TickEvent,
    fetch: FetchState,
    reply: Result<Option<Json>, ServiceError>,
    mock: bool,
)
    requires
        match event {
            TickEvent::Registered => state is Registering,
            TickEvent::GateRead { .. } => state is Gate,
            TickEvent::Woken => state is Parked,
            TickEvent::FlagsRead { .. } => state is Flags,
            TickEvent::Fetched(_) => state is Fetching,
            TickEvent::Slept => state is Sleeping,
        },
        !(fetch is Finished),
    ensures
        call_requires(tick_step, (kind, state, event)),
        call_requires(fetch_step, (fetch, reply, mock)),
{
}

} // verus!
