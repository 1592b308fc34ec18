use music_api::app::spotify_service::{
    service_start, service_step, ServiceAction, ServiceError, ServiceEvent, ServiceState,
};
use music_api::domain::oauth_client::{RefreshedTokens, TokenExchangeError};
use music_api::domain::spotify::SpotifyError;
use music_api::domain::tokens::{RepoError, TokenRecord};
use music_api::json::Json;
use music_api::time::Timestamp;

fn token(access: &str) -> TokenRecord {
    TokenRecord {
        access_token: access.to_string(),
        refresh_token: "R".to_string(),
        expires_at: Timestamp { secs: 0, nanos: 0 },
        scope: "s".to_string(),
        owner_id: "o".to_string(),
    }
}

const NOW: Timestamp = Timestamp { secs: 1000, nanos: 5 };

/// A world in which a call is made: what is stored, which access token is
/// accepted, and what a refresh gives.
struct World {
    stored: Result<Option<TokenRecord>, RepoError>,
    accepted: &'static str,
    flag: bool,
    refresh: fn(&str) -> Result<RefreshedTokens, TokenExchangeError>,
    store: Result<(), String>,
    calls: Vec<String>,
    refreshes: Vec<String>,
    rotate_while_waiting: Option<&'static str>,
}

fn world() -> World {
    World {
        stored: Ok(Some(token("A"))),
        accepted: "A",
        flag: false,
        refresh: |_| Err(TokenExchangeError::Status(500)),
        store: Ok(()),
        calls: Vec::new(),
        refreshes: Vec::new(),
        rotate_while_waiting: None,
    }
}

fn copy_read(r: &Result<Option<TokenRecord>, RepoError>) -> Result<Option<TokenRecord>, RepoError> {
    match r {
        Ok(t) => Ok(t.clone()),
        Err(RepoError::Backend(s)) => Err(RepoError::Backend(s.clone())),
    }
}

fn run(w: &mut World) -> Result<Option<Json>, ServiceError> {
    let (mut state, mut action) = service_start();
    loop {
        let event = match action {
            ServiceAction::ReadToken => ServiceEvent::TokenRead(copy_read(&w.stored)),
            ServiceAction::Call(access) => {
                let reply = if access == w.accepted {
                    Ok(Some(Json::text("reply")))
                } else {
                    Err(SpotifyError::Status(401))
                };
                w.calls.push(access);
                ServiceEvent::Called(reply)
            }
            ServiceAction::Lock => {
                assert!(!state.holds_lock());
                if let Some(other) = w.rotate_while_waiting {
                    w.stored = Ok(Some(token(other)));
                }
                ServiceEvent::Locked { needs_reauth: w.flag }
            }
            ServiceAction::Refresh(refresh) => {
                assert!(state.holds_lock());
                let result = (w.refresh)(&refresh);
                w.refreshes.push(refresh);
                ServiceEvent::Refreshed { result, now: NOW }
            }
            ServiceAction::Store(record) => {
                assert!(state.holds_lock());
                let stored = w.store.clone().map_err(RepoError::Backend);
                if stored.is_ok() {
                    w.stored = Ok(Some(record));
                }
                ServiceEvent::Stored(stored)
            }
            ServiceAction::Done { outcome, raise_flag } => {
                w.flag = w.flag || raise_flag;
                return outcome;
            }
        };
        (state, action) = service_step(state, event);
    }
}

#[test]
fn a_good_token_makes_one_call() {
    let mut w = world();
    assert_eq!(run(&mut w), Ok(Some(Json::text("reply"))));
    assert_eq!(w.calls, ["A"]);
    assert!(w.refreshes.is_empty());
}

#[test]
fn no_token_needs_reauth_without_raising_the_flag() {
    let mut w = world();
    w.stored = Ok(None);
    assert_eq!(run(&mut w), Err(ServiceError::NeedsReauth));
    assert!(!w.flag);
    assert!(w.calls.is_empty());
}

#[test]
fn a_storage_failure_is_reported() {
    let mut w = world();
    w.stored = Err(RepoError::Backend("disk".to_string()));
    assert_eq!(
        run(&mut w),
        Err(ServiceError::Repo("storage backend error: disk".to_string()))
    );
}

#[test]
fn an_expired_token_is_refreshed_stored_and_retried() {
    let mut w = world();
    w.accepted = "B";
    w.refresh = |_| {
        Ok(RefreshedTokens {
            access_token: "B".to_string(),
            refresh_token: None,
            expires_in: 3600,
            scope: None,
        })
    };
    assert_eq!(run(&mut w), Ok(Some(Json::text("reply"))));
    assert_eq!(w.calls, ["A", "B"]);
    assert_eq!(w.refreshes, ["R"]);
    assert_eq!(
        w.stored,
        Ok(Some(TokenRecord {
            access_token: "B".to_string(),
            refresh_token: "R".to_string(),
            expires_at: Timestamp { secs: 4600, nanos: 5 },
            scope: "s".to_string(),
            owner_id: "o".to_string(),
        }))
    );
}

#[test]
fn a_rotated_refresh_token_replaces_the_old_one() {
    let mut w = world();
    w.accepted = "B";
    w.refresh = |_| {
        Ok(RefreshedTokens {
            access_token: "B".to_string(),
            refresh_token: Some("R2".to_string()),
            expires_in: 1,
            scope: Some("s2".to_string()),
        })
    };
    assert!(run(&mut w).is_ok());
    let stored = w.stored.unwrap().unwrap();
    assert_eq!(stored.refresh_token, "R2");
    assert_eq!(stored.scope, "s2");
}

#[test]
fn a_second_refusal_is_not_retried() {
    let mut w = world();
    w.accepted = "neither";
    w.refresh = |_| {
        Ok(RefreshedTokens {
            access_token: "B".to_string(),
            refresh_token: None,
            expires_in: 1,
            scope: None,
        })
    };
    assert_eq!(
        run(&mut w),
        Err(ServiceError::Upstream("spotify returned status 401".to_string()))
    );
    assert_eq!(w.calls, ["A", "B"]);
    assert_eq!(w.refreshes.len(), 1);
}

#[test]
fn a_dead_refresh_token_raises_the_flag_and_keeps_the_tokens() {
    let mut w = world();
    w.accepted = "B";
    w.refresh = |_| Err(TokenExchangeError::InvalidGrant);
    assert_eq!(run(&mut w), Err(ServiceError::NeedsReauth));
    assert!(w.flag);
    assert_eq!(w.stored, Ok(Some(token("A"))));

    // The next refused call does not ask again.
    assert_eq!(run(&mut w), Err(ServiceError::NeedsReauth));
    assert_eq!(w.refreshes.len(), 1);
}

#[test]
fn a_failed_refresh_is_an_upstream_failure() {
    let mut w = world();
    w.accepted = "B";
    assert_eq!(
        run(&mut w),
        Err(ServiceError::Upstream("token endpoint returned status 500".to_string()))
    );
    assert!(!w.flag);
}

#[test]
fn a_latecomer_reuses_the_refreshed_token() {
    let mut w = world();
    w.accepted = "B";
    w.rotate_while_waiting = Some("B");
    assert_eq!(run(&mut w), Ok(Some(Json::text("reply"))));
    assert_eq!(w.calls, ["A", "B"]);
    assert!(w.refreshes.is_empty());
}

#[test]
fn tokens_that_cannot_be_stored_fail_the_call() {
    let mut w = world();
    w.accepted = "B";
    w.refresh = |_| {
        Ok(RefreshedTokens {
            access_token: "B".to_string(),
            refresh_token: None,
            expires_in: 1,
            scope: None,
        })
    };
    w.store = Err("full".to_string());
    assert_eq!(
        run(&mut w),
        Err(ServiceError::Repo("storage backend error: full".to_string()))
    );
    assert_eq!(w.calls, ["A"]);
}

#[test]
fn other_failures_are_not_refreshed() {
    let (state, _) = service_start();
    let (state, _) = service_step(state, ServiceEvent::TokenRead(Ok(Some(token("A")))));
    let (state, action) =
        service_step(state, ServiceEvent::Called(Err(SpotifyError::Decode("bad".to_string()))));
    assert!(matches!(state, ServiceState::Finished));
    match action {
        ServiceAction::Done { outcome, raise_flag } => {
            assert!(!raise_flag);
            assert_eq!(
                outcome,
                Err(ServiceError::Upstream("spotify response decode failed: bad".to_string()))
            );
        }
        _ => panic!("expected the end"),
    }
}
