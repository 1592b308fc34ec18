use music_api::app::scheduler::{
    fetch_start, fetch_step, schedule, tag_mock, tick_start, tick_step, FetchAction, FetchError,
    TickAction, TickEvent, TickState,
};
use music_api::app::snapshots::EndpointKind;
use music_api::app::spotify_service::ServiceError;
use music_api::config::SchedulerIntervals;
use music_api::json::{put, Json, Member};
use music_api::time::Duration;

fn page(total: u64) -> Json {
    let mut m: Vec<Member> = Vec::new();
    put(&mut m, "total", Json::count(total));
    Json::Obj(m)
}

/// Fetch with these replies, one for each GET; gives the paths and the end.
fn fetch(
    kind: EndpointKind,
    replies: Vec<Result<Option<Json>, ServiceError>>,
    mock: bool,
) -> (Vec<String>, Result<Json, FetchError>) {
    let mut paths = Vec::new();
    let mut replies = replies.into_iter();
    let (mut state, mut action) = fetch_start(kind);
    loop {
        match action {
            FetchAction::Get(path) => {
                paths.push(path);
                (state, action) = fetch_step(state, replies.next().unwrap(), mock);
            }
            FetchAction::Done(end) => return (paths, end),
        }
    }
}

#[test]
fn loops_start_with_their_intervals() {
    let i = SchedulerIntervals::default();
    let loops = schedule(&i);
    assert_eq!(
        loops,
        [
            (EndpointKind::Now, Duration::from_secs(5)),
            (EndpointKind::Recent, Duration::from_secs(300)),
            (EndpointKind::Top, Duration::from_secs(300)),
            (EndpointKind::Profile, Duration::from_secs(300)),
            (EndpointKind::Playlists, Duration::from_secs(300)),
        ]
    );
}

#[test]
fn no_content_means_not_playing() {
    let (paths, end) = fetch(EndpointKind::Now, vec![Ok(None)], false);
    assert_eq!(paths, ["/v1/me/player"]);
    let mut m: Vec<Member> = Vec::new();
    put(&mut m, "playing", Json::Bool(false));
    assert_eq!(end, Ok(Json::Obj(m)));
}

#[test]
fn no_content_means_empty_lists() {
    let (paths, end) = fetch(EndpointKind::Recent, vec![Ok(None)], false);
    assert_eq!(paths, ["/v1/me/player/recently-played?limit=20"]);
    assert_eq!(end.unwrap().get("items"), Some(&Json::Arr(vec![])));
    let (paths, end) = fetch(EndpointKind::Top, vec![Ok(None)], false);
    assert_eq!(paths, ["/v1/me/top/tracks?time_range=short_term&limit=10"]);
    assert_eq!(end.unwrap().get("items"), Some(&Json::Arr(vec![])));
    let (paths, end) = fetch(EndpointKind::Playlists, vec![Ok(None)], false);
    assert_eq!(paths, ["/v1/me/playlists?limit=20"]);
    let end = end.unwrap();
    assert_eq!(end.get("items"), Some(&Json::Arr(vec![])));
    assert_eq!(end.get("total"), Some(&Json::count(0)));
}

#[test]
fn the_profile_takes_three_calls() {
    let mut m: Vec<Member> = Vec::new();
    put(&mut m, "artists", page(11));
    let following = Json::Obj(m);
    let (paths, end) = fetch(
        EndpointKind::Profile,
        vec![Ok(Some(Json::Obj(vec![]))), Ok(Some(following)), Ok(Some(page(22)))],
        false,
    );
    assert_eq!(
        paths,
        ["/v1/me", "/v1/me/following?type=artist&limit=1", "/v1/me/playlists?limit=1"]
    );
    let end = end.unwrap();
    assert_eq!(end.get("following"), Some(&Json::count(11)));
    assert_eq!(end.get("playlists_count"), Some(&Json::count(22)));
}

#[test]
fn missing_counts_do_not_fail_the_profile() {
    let (_, end) = fetch(
        EndpointKind::Profile,
        vec![
            Ok(Some(Json::Obj(vec![]))),
            Err(ServiceError::Upstream("down".to_string())),
            Ok(None),
        ],
        false,
    );
    let end = end.unwrap();
    assert_eq!(end.get("following"), Some(&Json::count(0)));
    assert_eq!(end.get("playlists_count"), Some(&Json::count(0)));
}

#[test]
fn a_profile_without_content_fails() {
    let (_, end) = fetch(EndpointKind::Profile, vec![Ok(None)], false);
    assert_eq!(end, Err(FetchError::Upstream("/v1/me returned 204".to_string())));
}

#[test]
fn failures_are_passed_on() {
    let ends = [
        (ServiceError::NeedsReauth, FetchError::NeedsReauth, "needs_reauth"),
        (
            ServiceError::Upstream("u".to_string()),
            FetchError::Upstream("u".to_string()),
            "upstream: u",
        ),
        (ServiceError::Repo("r".to_string()), FetchError::Repo("r".to_string()), "repo: r"),
    ];
    for (given, expected, message) in ends {
        let (_, end) = fetch(EndpointKind::Now, vec![Err(given)], false);
        let e = end.err().unwrap();
        assert_eq!(e, expected);
        assert_eq!(e.message(), message);
    }
}

#[test]
fn canned_payloads_are_marked() {
    let (_, end) = fetch(EndpointKind::Now, vec![Ok(None)], true);
    assert_eq!(end.unwrap().get("_mock"), Some(&Json::Bool(true)));
    let (_, end) = fetch(EndpointKind::Now, vec![Ok(None)], false);
    assert_eq!(end.unwrap().get("_mock"), None);
    assert_eq!(tag_mock(true, Json::Null), Json::Null);
}

#[test]
fn an_idle_loop_parks_until_woken() {
    let kind = EndpointKind::Top;
    let (state, action) = tick_start();
    assert!(matches!(action, TickAction::Register));
    let (state, action) = tick_step(kind, state, TickEvent::Registered);
    assert!(matches!(action, TickAction::ReadGate));
    let (state, action) = tick_step(kind, state, TickEvent::GateRead { active: false });
    assert!(matches!(action, TickAction::Park));
    let (state, action) = tick_step(kind, state, TickEvent::Woken);
    assert_eq!(state, TickState::Flags);
    assert!(matches!(action, TickAction::ReadFlags));
}

#[test]
fn a_loop_fetches_only_with_both_flags() {
    for (needs_reauth, enabled, fetches) in
        [(false, true, true), (true, true, false), (false, false, false), (true, false, false)]
    {
        let (_, action) =
            tick_step(EndpointKind::Now, TickState::Flags, TickEvent::FlagsRead { needs_reauth, enabled });
        if fetches {
            assert!(matches!(action, TickAction::Fetch(EndpointKind::Now)));
        } else {
            assert!(matches!(action, TickAction::Sleep));
        }
    }
}

#[test]
fn a_tick_stores_what_it_fetched_and_nothing_else() {
    let kind = EndpointKind::Recent;
    let (state, action) =
        tick_step(kind, TickState::Fetching, TickEvent::Fetched(Ok(Json::count(1))));
    assert_eq!(state, TickState::Sleeping);
    match action {
        TickAction::StoreThenSleep(stored, payload) => {
            assert_eq!((stored, payload), (kind, Json::count(1)));
        }
        _ => panic!("expected the payload"),
    }
    let (state, action) = tick_step(
        kind,
        TickState::Fetching,
        TickEvent::Fetched(Err(FetchError::Repo("r".to_string()))),
    );
    match action {
        TickAction::LogThenSleep(message) => assert_eq!(message, "repo: r"),
        _ => panic!("expected the failure"),
    }
    let (state, action) = tick_step(kind, state, TickEvent::Slept);
    assert_eq!(state, TickState::Registering);
    assert!(matches!(action, TickAction::Register));
}
