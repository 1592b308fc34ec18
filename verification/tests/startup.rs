use music_api::config::{Config, ConfigError, SchedulerConfig};
use music_api::domain::tokens::TokenRecord;
use music_api::startup::{
    connect_options, mock_record, startup_start, startup_step, InitError, StartupAction,
    StartupState,
};
use music_api::time::Duration;

fn config(mock_data: bool) -> Config {
    Config {
        owner_spotify_user_id: "owner-id".to_string(),
        auth_basic_username: "owner".to_string(),
        auth_basic_password: "pw".to_string(),
        spotify_client_id: "cid".to_string(),
        spotify_client_secret: "csecret".to_string(),
        spotify_redirect_uri: "https://cb".to_string(),
        database_url: "sqlite::memory:".to_string(),
        mock_data,
        scheduler: SchedulerConfig::default(),
    }
}

/// Start up with the first `good` steps succeeding; gives all actions.
fn start(mock_data: bool, good: usize) -> Vec<StartupAction> {
    let c = config(mock_data);
    let mut actions = Vec::new();
    let opening = startup_start(Ok(config(mock_data))).ok().unwrap();
    let (mut state, mut action) = (opening.state, opening.action);
    while state != StartupState::Finished {
        actions.push(action);
        let result = if actions.len() <= good { Ok(()) } else { Err("why".to_string()) };
        (state, action) = startup_step(&c, state, result);
    }
    actions.push(action);
    actions
}

fn connect() -> StartupAction {
    StartupAction::Connect {
        create_if_missing: true,
        busy_timeout: Duration::from_secs(5),
        write_ahead_log: true,
    }
}

fn exchanger() -> StartupAction {
    StartupAction::BuildExchanger {
        token_url: "https://accounts.spotify.com/api/token",
        client_id: "cid".to_string(),
        client_secret: "csecret".to_string(),
    }
}

#[test]
fn the_steps_come_in_their_order() {
    assert_eq!(
        start(false, 9),
        [
            connect(),
            StartupAction::Migrate,
            StartupAction::BuildClient("https://api.spotify.com"),
            exchanger(),
            StartupAction::Ready,
        ]
    );
}

#[test]
fn mock_mode_stores_a_stand_in_token_first() {
    assert_eq!(
        start(true, 9),
        [
            connect(),
            StartupAction::Migrate,
            StartupAction::Seed(mock_record("owner-id")),
            StartupAction::BuildMockClient,
            exchanger(),
            StartupAction::Ready,
        ]
    );
}

#[test]
fn the_stand_in_token() {
    let t: TokenRecord = mock_record("owner-id");
    assert_eq!(t.access_token, "MOCK_ACCESS_NEVER_SENT");
    assert_eq!(t.refresh_token, "MOCK_REFRESH_NEVER_SENT");
    assert_eq!((t.expires_at.secs, t.expires_at.nanos), (4102444800, 0));
    assert_eq!(
        t.scope,
        "user-read-private user-read-playback-state user-read-recently-played \
         user-top-read playlist-read-private user-follow-read"
    );
    assert_eq!(t.owner_id, "owner-id");
}

#[test]
fn a_failure_names_its_step() {
    let why = || "why".to_string();
    let last = |mock, good| start(mock, good).pop().unwrap();
    assert_eq!(last(false, 0), StartupAction::Fail(InitError::SqliteConnect(why())));
    assert_eq!(last(false, 1), StartupAction::Fail(InitError::Migrate(why())));
    assert_eq!(last(true, 2), StartupAction::Fail(InitError::Seed(why())));
    assert_eq!(last(false, 2), StartupAction::Fail(InitError::SpotifyClient(why())));
    assert_eq!(last(false, 3), StartupAction::Fail(InitError::OAuthClient(why())));
    let (state, action) = startup_step(&config(false), StartupState::ReadingUrl, Err(why()));
    assert_eq!(state, StartupState::Finished);
    assert_eq!(action, StartupAction::Fail(InitError::InvalidDatabaseUrl(why())));
}

#[test]
fn startup_needs_settings_and_a_readable_url() {
    let missing = startup_start(Err(ConfigError::Missing("DATABASE_URL")));
    assert_eq!(missing.err().unwrap(), InitError::Config(ConfigError::Missing("DATABASE_URL")));

    let mut c = config(false);
    c.database_url = "sqlite://data.db?mode=sideways".to_string();
    let e = connect_options(&c).err().unwrap();
    assert_eq!(
        e,
        InitError::InvalidDatabaseUrl(
            "error with configuration: unknown value \"sideways\" for `mode`".to_string()
        )
    );
    assert_eq!(startup_start(Ok(c)).err().unwrap(), e);

    let mut c = config(false);
    c.database_url = "sqlite://some/data.db?mode=rwc".to_string();
    let options = connect_options(&c).ok().unwrap();
    assert_eq!(options.get_filename().to_str(), Some("some/data.db"));
}

#[test]
fn failures_in_words() {
    let x = || "x".to_string();
    assert_eq!(
        InitError::from(ConfigError::Missing("DATABASE_URL")).message(),
        "config invalid: required env var DATABASE_URL is unset or empty"
    );
    assert_eq!(InitError::InvalidDatabaseUrl(x()).message(), "invalid DATABASE_URL: x");
    assert_eq!(InitError::SqliteConnect(x()).message(), "sqlite connect failed: x");
    assert_eq!(InitError::Migrate(x()).message(), "migrations failed: x");
    assert_eq!(InitError::Seed(x()).message(), "mock token seed failed: x");
    assert_eq!(InitError::SpotifyClient(x()).message(), "spotify client init failed: x");
    assert_eq!(InitError::OAuthClient(x()).message(), "oauth client init failed: x");
}
