//! Scheduled fetching: which upstream paths make up an endpoint's payload,
//! and when a scheduler parks, sleeps or fetches.
//!
//! One loop per endpoint runs [`tick_step`], and fetches with
//! [`fetch_step`]. The handlers fetch with the same function on a cold
//! start, so that both store one shape.

use vstd::prelude::*;
use vstd::string::*;

use crate::app::snapshots::EndpointKind;
use crate::app::spotify_service::{ServiceError, ServiceErrorView};
use crate::app::v1_mapper::{
    self, map_now, map_playlists, map_profile, map_recent, map_top_tracks, nothing_playing, total_in,
};
use crate::config::SchedulerIntervals;
use crate::json::{put, Json, JsonView, Member};
use crate::time::Duration;

verus! {

/// Why an endpoint's payload could not be fetched.
#[derive(Debug, PartialEq)]
pub enum FetchError {
    NeedsReauth,
    Upstream(String),
    Repo(String),
}

/// What a [`FetchError`] holds.
pub enum FetchErrorView {
    NeedsReauth,
    Upstream(Seq<char>),
    Repo(Seq<char>),
}

impl View for FetchError {
    type V = FetchErrorView;

    open spec fn view(&self) -> FetchErrorView {
        match *self {
            FetchError::NeedsReauth => FetchErrorView::NeedsReauth,
            FetchError::Upstream(s) => FetchErrorView::Upstream(s@),
            FetchError::Repo(s) => FetchErrorView::Repo(s@),
        }
    }
}

impl FetchErrorView {
    /// The failure in words.
    pub open spec fn message(self) -> Seq<char> {
        match self {
            FetchErrorView::NeedsReauth => "needs_reauth"@,
            FetchErrorView::Upstream(s) => "upstream: "@ + s,
            FetchErrorView::Repo(s) => "repo: "@ + s,
        }
    }
}

impl FetchError {
    /// The failure in words.
    pub fn message(&self) -> (m: String)
        ensures
            m@ == self@.message(),
    {
        match self {
            FetchError::NeedsReauth => "needs_reauth".to_owned(),
            FetchError::Upstream(s) => "upstream: ".to_owned().concat(s.as_str()),
            FetchError::Repo(s) => "repo: ".to_owned().concat(s.as_str()),
        }
    }
}

/// The failure of a fetch whose upstream call failed.
pub open spec fn fetch_failure(e: ServiceErrorView) -> FetchErrorView {
    match e {
        ServiceErrorView::NeedsReauth => FetchErrorView::NeedsReauth,
        ServiceErrorView::Upstream(s) => FetchErrorView::Upstream(s),
        ServiceErrorView::Repo(s) => FetchErrorView::Repo(s),
    }
}

impl From<ServiceError> for FetchError {
    fn from(e: ServiceError) -> (f: FetchError) {
        match e {
            ServiceError::NeedsReauth => FetchError::NeedsReauth,
            ServiceError::Upstream(s) => FetchError::Upstream(s),
            ServiceError::Repo(s) => FetchError::Repo(s),
        }
    }
}

impl vstd::std_specs::convert::FromSpecImpl<ServiceError> for FetchError {
    open spec fn obeys_from_spec() -> bool {
        true
    }

    open spec fn from_spec(e: ServiceError) -> FetchError {
        match e {
            ServiceError::NeedsReauth => FetchError::NeedsReauth,
            ServiceError::Upstream(s) => FetchError::Upstream(s),
            ServiceError::Repo(s) => FetchError::Repo(s),
        }
    }
}

/// The endpoints with their intervals, in the order in which their loops
/// are started.
pub fn schedule(intervals: &SchedulerIntervals) -> (loops: Vec<(EndpointKind, Duration)>)
    ensures
        loops@ == seq![
            (EndpointKind::Now, intervals.now),
            (EndpointKind::Recent, intervals.recent),
            (EndpointKind::Top, intervals.top),
            (EndpointKind::Profile, intervals.profile),
            (EndpointKind::Playlists, intervals.playlists),
        ],
{
    let mut loops: Vec<(EndpointKind, Duration)> = Vec::new();
    loops.push((EndpointKind::Now, intervals.now));
    loops.push((EndpointKind::Recent, intervals.recent));
    loops.push((EndpointKind::Top, intervals.top));
    loops.push((EndpointKind::Profile, intervals.profile));
    loops.push((EndpointKind::Playlists, intervals.playlists));
    loops
}

/// A payload as it is served: marked `_mock` where it was made from canned
/// data. Only an object can carry the mark.
pub open spec fn tagged(mock: bool, payload: JsonView) -> JsonView {
    match payload {
        JsonView::Obj(members) => if mock {
            JsonView::Obj(members.insert("_mock"@, JsonView::Bool(true)))
        } else {
            payload
        },
        _ => payload,
    }
}

/// Mark a payload as made from canned data, where it was.
pub fn tag_mock(mock: bool, payload: Json) -> (served: Json)
    ensures
        served@ == tagged(mock, payload@),
{
    if !mock {
        return payload;
    }
    match payload {
        Json::Obj(members) => {
            let mut members = members;
            put(&mut members, "_mock", Json::Bool(true));
            Json::Obj(members)
        },
        other => other,
    }
}

/// How far the fetch of an endpoint's payload has come.
pub enum FetchState {
    Now,
    Recent,
    Top,
    Playlists,
    /// The profile itself is being fetched.
    Profile,
    /// The number of followed artists is being fetched.
    Following { me: Json },
    /// The number of playlists is being fetched.
    PlaylistCount { me: Json, following: u64 },
    Finished,
}

/// What a [`FetchState`] holds.
pub enum FetchStateView {
    Now,
    Recent,
    Top,
    Playlists,
    Profile,
    Following { me: JsonView },
    PlaylistCount { me: JsonView, following: u64 },
    Finished,
}

impl View for FetchState {
    type V = FetchStateView;

    open spec fn view(&self) -> FetchStateView {
        match *self {
            FetchState::Now => FetchStateView::Now,
            FetchState::Recent => FetchStateView::Recent,
            FetchState::Top => FetchStateView::Top,
            FetchState::Playlists => FetchStateView::Playlists,
            FetchState::Profile => FetchStateView::Profile,
            FetchState::Following { me } => FetchStateView::Following { me: me@ },
            FetchState::PlaylistCount { me, following } => FetchStateView::PlaylistCount {
                me: me@,
                following,
            },
            FetchState::Finished => FetchStateView::Finished,
        }
    }
}

/// What a fetch does next.
pub enum FetchAction {
    /// GET this path on the owner's behalf.
    Get(String),
    /// Give back the payload or the failure.
    Done(Result<Json, FetchError>),
}

/// What a [`FetchAction`] holds.
pub enum FetchActionView {
    Get(Seq<char>),
    Done(Result<JsonView, FetchErrorView>),
}

/// The payload or the failure.
pub open spec fn fetched_view(fetched: Result<Json, FetchError>) -> Result<
    JsonView,
    FetchErrorView,
> {
    match fetched {
        Ok(payload) => Ok(payload@),
        Err(e) => Err(e@),
    }
}

impl View for FetchAction {
    type V = FetchActionView;

    open spec fn view(&self) -> FetchActionView {
        match *self {
            FetchAction::Get(path) => FetchActionView::Get(path@),
            FetchAction::Done(fetched) => FetchActionView::Done(fetched_view(fetched)),
        }
    }
}

/// The upstream reply to a GET: none for one without content.
pub open spec fn reply_view(reply: Result<Option<Json>, ServiceError>) -> Result<
    Option<JsonView>,
    ServiceErrorView,
> {
    crate::app::spotify_service::outcome_view(reply)
}

/// A list reply without items.
pub open spec fn no_items() -> JsonView {
    JsonView::Obj(map!["items"@ => JsonView::Arr(Seq::empty())])
}

/// A page of playlists without items.
pub open spec fn no_playlists() -> JsonView {
    JsonView::Obj(
        map!["items"@ => JsonView::Arr(Seq::empty()), "total"@ => v1_mapper::number(0)],
    )
}

/// The state and the path with which the fetch for an endpoint starts.
pub open spec fn fetch_first(kind: EndpointKind) -> (FetchStateView, FetchActionView) {
    match kind {
        EndpointKind::Now => (FetchStateView::Now, FetchActionView::Get("/v1/me/player"@)),
        EndpointKind::Recent => (
            FetchStateView::Recent,
            FetchActionView::Get("/v1/me/player/recently-played?limit=20"@),
        ),
        EndpointKind::Top => (
            FetchStateView::Top,
            FetchActionView::Get("/v1/me/top/tracks?time_range=short_term&limit=10"@),
        ),
        EndpointKind::Profile => (FetchStateView::Profile, FetchActionView::Get("/v1/me"@)),
        EndpointKind::Playlists => (
            FetchStateView::Playlists,
            FetchActionView::Get("/v1/me/playlists?limit=20"@),
        ),
    }
}

/// The end of a fetch.
pub open spec fn fetch_end(fetched: Result<JsonView, FetchErrorView>) -> (
    FetchStateView,
    FetchActionView,
) {
    (FetchStateView::Finished, FetchActionView::Done(fetched))
}

/// How a fetch goes on from `state` once the reply to its GET has come.
pub open spec fn fetch_next(
    state: FetchStateView,
    reply: Result<Option<JsonView>, ServiceErrorView>,
    mock: bool,
) -> (FetchStateView, FetchActionView) {
    match state {
        FetchStateView::Now => match reply {
            Ok(Some(player)) => fetch_end(Ok(tagged(mock, v1_mapper::now_payload(player)))),
            Ok(None) => fetch_end(Ok(tagged(mock, v1_mapper::idle_payload()))),
            Err(e) => fetch_end(Err(fetch_failure(e))),
        },
        FetchStateView::Recent => match reply {
            Ok(Some(raw)) => fetch_end(Ok(tagged(mock, v1_mapper::recent_payload(raw)))),
            Ok(None) => fetch_end(Ok(tagged(mock, v1_mapper::recent_payload(no_items())))),
            Err(e) => fetch_end(Err(fetch_failure(e))),
        },
        FetchStateView::Top => match reply {
            Ok(Some(raw)) => fetch_end(Ok(tagged(mock, v1_mapper::top_payload(raw)))),
            Ok(None) => fetch_end(Ok(tagged(mock, v1_mapper::top_payload(no_items())))),
            Err(e) => fetch_end(Err(fetch_failure(e))),
        },
        FetchStateView::Playlists => match reply {
            Ok(Some(raw)) => fetch_end(Ok(tagged(mock, v1_mapper::playlists_payload(raw)))),
            Ok(None) => fetch_end(Ok(tagged(mock, v1_mapper::playlists_payload(no_playlists())))),
            Err(e) => fetch_end(Err(fetch_failure(e))),
        },
        FetchStateView::Profile => match reply {
            Ok(Some(me)) => (
                FetchStateView::Following { me },
                FetchActionView::Get("/v1/me/following?type=artist&limit=1"@),
            ),
            Ok(None) => fetch_end(Err(FetchErrorView::Upstream("/v1/me returned 204"@))),
            Err(e) => fetch_end(Err(fetch_failure(e))),
        },
        FetchStateView::Following { me } => (
            FetchStateView::PlaylistCount {
                me,
                following: match reply {
                    Ok(Some(page)) => page.field("artists"@).field("total"@).count(),
                    _ => 0,
                },
            },
            FetchActionView::Get("/v1/me/playlists?limit=1"@),
        ),
        FetchStateView::PlaylistCount { me, following } => fetch_end(
            Ok(
                tagged(
                    mock,
                    v1_mapper::profile_payload(
                        me,
                        following,
                        match reply {
                            Ok(Some(page)) => page.field("total"@).count(),
                            _ => 0,
                        },
                    ),
                ),
            ),
        ),
        FetchStateView::Finished => arbitrary(),
    }
}

/// Start the fetch of an endpoint's payload.
pub fn fetch_start(kind: EndpointKind) -> (next: (FetchState, FetchAction))
    ensures
        (next.0@, next.1@) == fetch_first(kind),
{
    match kind {
        EndpointKind::Now => (FetchState::Now, FetchAction::Get("/v1/me/player".to_owned())),
        EndpointKind::Recent => (
            FetchState::Recent,
            FetchAction::Get("/v1/me/player/recently-played?limit=20".to_owned()),
        ),
        EndpointKind::Top => (
            FetchState::Top,
            FetchAction::Get("/v1/me/top/tracks?time_range=short_term&limit=10".to_owned()),
        ),
        EndpointKind::Profile => (FetchState::Profile, FetchAction::Get("/v1/me".to_owned())),
        EndpointKind::Playlists => (
            FetchState::Playlists,
            FetchAction::Get("/v1/me/playlists?limit=20".to_owned()),
        ),
    }
}

fn finish(mock: bool, payload: Json) -> (next: (FetchState, FetchAction))
    ensures
        (next.0@, next.1@) == fetch_end(Ok(tagged(mock, payload@))),
{
    (FetchState::Finished, FetchAction::Done(Ok(tag_mock(mock, payload))))
}

fn give_up(e: ServiceError) -> (next: (FetchState, FetchAction))
    ensures
        (next.0@, next.1@) == fetch_end(Err(fetch_failure(e@))),
{
    (FetchState::Finished, FetchAction::Done(Err(FetchError::from(e))))
}

fn empty_list() -> (list: Json)
    ensures
        list@ == no_items(),
{
    let mut m: Vec<Member> = Vec::new();
    put(&mut m, "items", Json::Arr(Vec::new()));
    Json::Obj(m)
}

fn empty_playlists() -> (list: Json)
    ensures
        list@ == no_playlists(),
{
    let mut m: Vec<Member> = Vec::new();
    put(&mut m, "items", Json::Arr(Vec::new()));
    put(&mut m, "total", Json::count(0));
    Json::Obj(m)
}

/// Go on with a fetch once the reply to its GET has come. Where only a
/// count of the profile is missing, it is given as zero.
pub fn fetch_step(
    state: FetchState,
    reply: Result<Option<Json>, ServiceError>,
    mock: bool,
) -> (next: (FetchState, FetchAction))
    requires
        !(state is Finished),
    ensures
        (next.0@, next.1@) == fetch_next(state@, reply_view(reply), mock),
{
    match state {
        FetchState::Now => match reply {
            Ok(Some(player)) => finish(mock, map_now(&player)),
            Ok(None) => finish(mock, nothing_playing()),
            Err(e) => give_up(e),
        },
        FetchState::Recent => match reply {
            Ok(Some(raw)) => finish(mock, map_recent(&raw)),
            Ok(None) => finish(mock, map_recent(&empty_list())),
            Err(e) => give_up(e),
        },
        FetchState::Top => match reply {
            Ok(Some(raw)) => finish(mock, map_top_tracks(&raw)),
            Ok(None) => finish(mock, map_top_tracks(&empty_list())),
            Err(e) => give_up(e),
        },
        FetchState::Playlists => match reply {
            Ok(Some(raw)) => finish(mock, map_playlists(&raw)),
            Ok(None) => finish(mock, map_playlists(&empty_playlists())),
            Err(e) => give_up(e),
        },
        FetchState::Profile => match reply {
            Ok(Some(me)) => (
                FetchState::Following { me },
                FetchAction::Get("/v1/me/following?type=artist&limit=1".to_owned()),
            ),
            Ok(None) => (
                FetchState::Finished,
                FetchAction::Done(Err(FetchError::Upstream("/v1/me returned 204".to_owned()))),
            ),
            Err(e) => give_up(e),
        },
        FetchState::Following { me } => {
            let following: u64 = match reply {
                Ok(Some(page)) => match page.get("artists") {
                    Some(artists) => total_in(artists),
                    None => 0,
                },
                _ => 0,
            };
            (
                FetchState::PlaylistCount { me, following },
                FetchAction::Get("/v1/me/playlists?limit=1".to_owned()),
            )
        },
        FetchState::PlaylistCount { me, following } => {
            let playlists: u64 = match reply {
                Ok(Some(page)) => total_in(&page),
                _ => 0,
            };
            finish(mock, map_profile(&me, following, playlists))
        },
        FetchState::Finished => {
            assert(false);
            (state, FetchAction::Done(Err(FetchError::NeedsReauth)))
        },
    }
}

/// Where a scheduler loop stands.
#[derive(Debug, Clone, Copy, PartialEq, Eq, Structural)]
pub enum TickState {
    /// At the top of a turn: the wait for a wake-up is being registered.
    Registering,
    /// With the wait registered, the activity gate is being read.
    Gate,
    /// Parked until a touch wakes the loop.
    Parked,
    /// The authorization flag and the kill switch are being read.
    Flags,
    /// The payload is being fetched.
    Fetching,
    /// Asleep until the next round.
    Sleeping,
}

/// What came of the loop's last action.
pub enum TickEvent {
    /// A touch from now on ends the wait, even before the loop parks.
    Registered,
    /// Whether there was activity of late.
    GateRead { active: bool },
    Woken,
    FlagsRead { needs_reauth: bool, enabled: bool },
    Fetched(Result<Json, FetchError>),
    Slept,
}

/// What the loop does next.
pub enum TickAction {
    /// Register the wait for a wake-up.
    Register,
    /// Read the activity gate.
    ReadGate,
    /// Wait as registered.
    Park,
    ReadFlags,
    /// Fetch the payload of this endpoint.
    Fetch(EndpointKind),
    /// Store the payload for this endpoint, then sleep for the interval.
    StoreThenSleep(EndpointKind, Json),
    /// Log the failure, then sleep for the interval.
    LogThenSleep(String),
    /// Sleep for the interval.
    Sleep,
}

/// What a [`TickAction`] holds.
pub enum TickActionView {
    Register,
    ReadGate,
    Park,
    ReadFlags,
    Fetch(EndpointKind),
    StoreThenSleep(EndpointKind, JsonView),
    LogThenSleep(Seq<char>),
    Sleep,
}

impl View for TickAction {
    type V = TickActionView;

    open spec fn view(&self) -> TickActionView {
        match *self {
            TickAction::Register => TickActionView::Register,
            TickAction::ReadGate => TickActionView::ReadGate,
            TickAction::Park => TickActionView::Park,
            TickAction::ReadFlags => TickActionView::ReadFlags,
            TickAction::Fetch(kind) => TickActionView::Fetch(kind),
            TickAction::StoreThenSleep(kind, payload) => TickActionView::StoreThenSleep(
                kind,
                payload@,
            ),
            TickAction::LogThenSleep(message) => TickActionView::LogThenSleep(message@),
            TickAction::Sleep => TickActionView::Sleep,
        }
    }
}

/// The event is one that the loop waits for.
pub open spec fn tick_awaited(state: TickState, event: TickEvent) -> bool {
    match (state, event) {
        (TickState::Registering, TickEvent::Registered) => true,
        (TickState::Gate, TickEvent::GateRead { .. }) => true,
        (TickState::Parked, TickEvent::Woken) => true,
        (TickState::Flags, TickEvent::FlagsRead { .. }) => true,
        (TickState::Fetching, TickEvent::Fetched(_)) => true,
        (TickState::Sleeping, TickEvent::Slept) => true,
        _ => false,
    }
}

/// How the loop of an endpoint goes on once `event` has come.
pub open spec fn tick_next(kind: EndpointKind, event: TickEvent) -> (TickState, TickActionView) {
    match event {
        TickEvent::Registered => (TickState::Gate, TickActionView::ReadGate),
        TickEvent::GateRead { active } => if active {
            (TickState::Flags, TickActionView::ReadFlags)
        } else {
            (TickState::Parked, TickActionView::Park)
        },
        TickEvent::Woken => (TickState::Flags, TickActionView::ReadFlags),
        TickEvent::FlagsRead { needs_reauth, enabled } => if needs_reauth || !enabled {
            (TickState::Sleeping, TickActionView::Sleep)
        } else {
            (TickState::Fetching, TickActionView::Fetch(kind))
        },
        TickEvent::Fetched(fetched) => (
            TickState::Sleeping,
            match fetched {
                Ok(payload) => TickActionView::StoreThenSleep(kind, payload@),
                Err(e) => TickActionView::LogThenSleep(e@.message()),
            },
        ),
        TickEvent::Slept => (TickState::Registering, TickActionView::Register),
    }
}

/// Start a scheduler loop.
pub fn tick_start() -> (next: (TickState, TickAction))
    ensures
        next.0 == TickState::Registering,
        next.1@ == TickActionView::Register,
{
    (TickState::Registering, TickAction::Register)
}

/// Go on with the loop of an endpoint once the awaited event has come. A loop
/// without authorization, or switched off, sleeps instead of parking, so
/// that it picks up a change at its next round.
pub fn tick_step(kind: EndpointKind, state: TickState, event: TickEvent) -> (next: (
    TickState,
    TickAction,
))
    requires
        tick_awaited(state, event),
    ensures
        (next.0, next.1@) == tick_next(kind, event),
{
    match event {
        TickEvent::Registered => (TickState::Gate, TickAction::ReadGate),
        TickEvent::GateRead { active } => if active {
            (TickState::Flags, TickAction::ReadFlags)
        } else {
            (TickState::Parked, TickAction::Park)
        },
        TickEvent::Woken => (TickState::Flags, TickAction::ReadFlags),
        TickEvent::FlagsRead { needs_reauth, enabled } => if needs_reauth || !enabled {
            (TickState::Sleeping, TickAction::Sleep)
        } else {
            (TickState::Fetching, TickAction::Fetch(kind))
        },
        TickEvent::Fetched(fetched) => match fetched {
            Ok(payload) => (TickState::Sleeping, TickAction::StoreThenSleep(kind, payload)),
            Err(e) => (TickState::Sleeping, TickAction::LogThenSleep(e.message())),
        },
        TickEvent::Slept => (TickState::Registering, TickAction::Register),
    }
}

/// The loop fetches exactly where it finds the owner authorized and the
/// kill switch on. Otherwise it sleeps, and does not park.
pub proof fn fetch_needs_both_flags(kind: EndpointKind, state: TickState, event: TickEvent)
    requires
        tick_awaited(state, event),
    ensures
        tick_next(kind, event).1 is Fetch <==> event == (TickEvent::FlagsRead {
            needs_reauth: false,
            enabled: true,
        }),
        event is FlagsRead && !(tick_next(kind, event).1 is Fetch) ==> tick_next(kind, event).1
            is Sleep,
{
}

/// The loop parks exactly where there was no activity of late, and only a
/// wake-up or activity leads on to the flags and so to a fetch.
pub proof fn idle_loops_park(kind: EndpointKind, state: TickState, event: TickEvent)
    requires
        tick_awaited(state, event),
    ensures
        tick_next(kind, event).1 is Park <==> event == (TickEvent::GateRead { active: false }),
        tick_next(kind, event).0 is Flags <==> event is Woken || event == (TickEvent::GateRead {
            active: true,
        }),
{
}

/// The wait for a wake-up is registered in this state.
pub open spec fn registered(state: TickState) -> bool {
    state is Gate || state is Parked
}

/// The activity gate is read only after the wait for a wake-up has been
/// registered, anew in each turn, and the registration lasts from there
/// until the loop has been woken or has found activity: a touch that comes
/// after the reading is not lost.
pub proof fn registered_before_the_gate(kind: EndpointKind, state: TickState, event: TickEvent)
    requires
        tick_awaited(state, event),
    ensures
        tick_next(kind, event).1 is ReadGate <==> event is Registered,
        event is GateRead || event is Woken ==> registered(state),
        tick_next(kind, event).1 is Park ==> registered(state) && registered(
            tick_next(kind, event).0,
        ),
        event is Slept ==> tick_next(kind, event).1 is Register,
        registered(tick_next(kind, event).0) && !registered(state) ==> event is Registered,
{
}

/// A fetch that failed stores nothing: the snapshot before it stays. One
/// that succeeded stores its payload, for the loop's own endpoint.
pub proof fn failures_store_nothing(kind: EndpointKind, state: TickState, event: TickEvent)
    requires
        tick_awaited(state, event),
    ensures
        tick_next(kind, event).1 is StoreThenSleep <==> (event matches TickEvent::Fetched(fetched)
            && fetched is Ok),
        tick_next(kind, event).1 matches TickActionView::StoreThenSleep(stored, payload) ==> {
            &&& stored == kind
            &&& event matches TickEvent::Fetched(fetched) && fetched matches Ok(j) && payload == j@
        },
        tick_next(kind, event).1 matches TickActionView::Fetch(fetched) ==> fetched == kind,
{
}

/// The profile is served whatever becomes of the two counts: a count whose
/// call failed or had no content is zero.
pub proof fn profile_survives_missing_counts(
    me: JsonView,
    first: Result<Option<JsonView>, ServiceErrorView>,
    second: Result<Option<JsonView>, ServiceErrorView>,
    mock: bool,
)
    ensures
        ({
            let (state, _) = fetch_next(FetchStateView::Profile, Ok(Some(me)), mock);
            let (state, _) = fetch_next(state, first, mock);
            let (state, action) = fetch_next(state, second, mock);
            let following = match first {
                Ok(Some(page)) => page.field("artists"@).field("total"@).count(),
                _ => 0,
            };
            let playlists = match second {
                Ok(Some(page)) => page.field("total"@).count(),
                _ => 0,
            };
            &&& state is Finished
            &&& action == FetchActionView::Done(
                Ok(tagged(mock, v1_mapper::profile_payload(me, following, playlists))),
            )
        }),
{
}

/// An upstream reply without content is no failure, but for the profile: it
/// stands for nothing playing, or for an empty list.
pub proof fn no_content_is_no_failure(kind: EndpointKind, mock: bool)
    requires
        kind != EndpointKind::Profile,
    ensures
        fetch_next(fetch_first(kind).0, Ok(None), mock) == fetch_end(
            Ok(
                tagged(
                    mock,
                    match kind {
                        EndpointKind::Now => v1_mapper::idle_payload(),
                        EndpointKind::Recent => v1_mapper::recent_payload(no_items()),
                        EndpointKind::Top => v1_mapper::top_payload(no_items()),
                        _ => v1_mapper::playlists_payload(no_playlists()),
                    },
                ),
            ),
        ),
{
}

} // verus!
