//! Startup: the steps between the settings and the listener, in their
//! order, and how each can fail.

use vstd::prelude::*;
use vstd::string::*;

use std::str::FromStr;

use sqlx::sqlite::SqliteConnectOptions;

use crate::config::{Config, ConfigError, ConfigView};
use crate::domain::tokens::{TokenRecord, TokenView};
use crate::time::{Duration, Timestamp};

verus! {

/// The upstream API.
pub const API_BASE_URL: &'static str = "https://api.spotify.com";

/// The token endpoint.
pub const TOKEN_URL: &'static str = "https://accounts.spotify.com/api/token";

/// The expiry of the stand-in token, in seconds since 1970: the start of
/// the year 2100.
pub const MOCK_EXPIRY_SECS: i64 = 4_102_444_800;

/// The step at which startup failed.
#[derive(Debug, PartialEq)]
pub enum InitError {
    Config(ConfigError),
    InvalidDatabaseUrl(String),
    SqliteConnect(String),
    Migrate(String),
    Seed(String),
    SpotifyClient(String),
    OAuthClient(String),
}

impl From<ConfigError> for InitError {
    fn from(e: ConfigError) -> (f: InitError) {
        InitError::Config(e)
    }
}

impl vstd::std_specs::convert::FromSpecImpl<ConfigError> for InitError {
    open spec fn obeys_from_spec() -> bool {
        true
    }

    open spec fn from_spec(e: ConfigError) -> InitError {
        InitError::Config(e)
    }
}

/// What an [`InitError`] holds.
pub enum InitErrorView {
    Config(ConfigError),
    InvalidDatabaseUrl(Seq<char>),
    SqliteConnect(Seq<char>),
    Migrate(Seq<char>),
    Seed(Seq<char>),
    SpotifyClient(Seq<char>),
    OAuthClient(Seq<char>),
}

impl View for InitError {
    type V = InitErrorView;

    open spec fn view(&self) -> InitErrorView {
        match *self {
            InitError::Config(e) => InitErrorView::Config(e),
            InitError::InvalidDatabaseUrl(s) => InitErrorView::InvalidDatabaseUrl(s@),
            InitError::SqliteConnect(s) => InitErrorView::SqliteConnect(s@),
            InitError::Migrate(s) => InitErrorView::Migrate(s@),
            InitError::Seed(s) => InitErrorView::Seed(s@),
            InitError::SpotifyClient(s) => InitErrorView::SpotifyClient(s@),
            InitError::OAuthClient(s) => InitErrorView::OAuthClient(s@),
        }
    }
}

impl InitError {
    pub open spec fn message_view(self) -> Seq<char> {
        match self {
            InitError::Config(e) => "config invalid: "@ + e.message_view(),
            InitError::InvalidDatabaseUrl(s) => "invalid DATABASE_URL: "@ + s@,
            InitError::SqliteConnect(s) => "sqlite connect failed: "@ + s@,
            InitError::Migrate(s) => "migrations failed: "@ + s@,
            InitError::Seed(s) => "mock token seed failed: "@ + s@,
            InitError::SpotifyClient(s) => "spotify client init failed: "@ + s@,
            InitError::OAuthClient(s) => "oauth client init failed: "@ + s@,
        }
    }

    /// The failure in words.
    pub fn message(&self) -> (m: String)
        ensures
            m@ == self.message_view(),
    {
        match self {
            InitError::Config(e) => "config invalid: ".to_owned().concat(e.message().as_str()),
            InitError::InvalidDatabaseUrl(s) => "invalid DATABASE_URL: ".to_owned().concat(
                s.as_str(),
            ),
            InitError::SqliteConnect(s) => "sqlite connect failed: ".to_owned().concat(s.as_str()),
            InitError::Migrate(s) => "migrations failed: ".to_owned().concat(s.as_str()),
            InitError::Seed(s) => "mock token seed failed: ".to_owned().concat(s.as_str()),
            InitError::SpotifyClient(s) => "spotify client init failed: ".to_owned().concat(
                s.as_str(),
            ),
            InitError::OAuthClient(s) => "oauth client init failed: ".to_owned().concat(s.as_str()),
        }
    }
}

/// The stand-in token that lets calls through while canned data is served.
/// It is never sent anywhere.
pub open spec fn mock_token(owner_id: Seq<char>) -> TokenView {
    TokenView {
        access_token: "MOCK_ACCESS_NEVER_SENT"@,
        refresh_token: "MOCK_REFRESH_NEVER_SENT"@,
        expires_at: Timestamp { secs: MOCK_EXPIRY_SECS, nanos: 0 },
        scope: "user-read-private user-read-playback-state user-read-recently-played user-top-read playlist-read-private user-follow-read"@,
        owner_id,
    }
}

/// The stand-in token for this owner.
pub fn mock_record(owner_id: &str) -> (token: TokenRecord)
    ensures
        token@ == mock_token(owner_id@),
{
    TokenRecord {
        access_token: "MOCK_ACCESS_NEVER_SENT".to_owned(),
        refresh_token: "MOCK_REFRESH_NEVER_SENT".to_owned(),
        expires_at: Timestamp { secs: MOCK_EXPIRY_SECS, nanos: 0 },
        scope:
            "user-read-private user-read-playback-state user-read-recently-played user-top-read playlist-read-private user-follow-read".to_owned(),
        owner_id: owner_id.to_owned(),
    }
}

/// How far startup has come.
#[derive(Debug, Clone, Copy, PartialEq, Eq, Structural)]
pub enum StartupState {
    /// The database URL is being read.
    ReadingUrl,
    /// The database is being opened.
    Connecting,
    /// The schema is being brought up to date.
    Migrating,
    /// The stand-in token is being stored.
    Seeding,
    /// The client of the upstream API is being built.
    BuildingClient,
    /// The client of the token endpoint is being built.
    BuildingExchanger,
    Finished,
}

/// What startup does next.
#[derive(Debug, PartialEq)]
pub enum StartupAction {
    /// Open the database; wait that long for another writer to finish.
    Connect { create_if_missing: bool, busy_timeout: Duration, write_ahead_log: bool },
    Migrate,
    Seed(TokenRecord),
    /// Build the client that serves canned replies.
    BuildMockClient,
    /// Build the client of the API at this address.
    BuildClient(&'static str),
    /// Build the client of the token endpoint at this address, with these
    /// credentials.
    BuildExchanger { token_url: &'static str, client_id: String, client_secret: String },
    /// Listen.
    Ready,
    /// Give up.
    Fail(InitError),
}

/// What a [`StartupAction`] holds.
pub enum StartupActionView {
    Connect { create_if_missing: bool, busy_timeout: nat, write_ahead_log: bool },
    Migrate,
    Seed(TokenView),
    BuildMockClient,
    BuildClient(Seq<char>),
    BuildExchanger { token_url: Seq<char>, client_id: Seq<char>, client_secret: Seq<char> },
    Ready,
    Fail(InitErrorView),
}

impl View for StartupAction {
    type V = StartupActionView;

    open spec fn view(&self) -> StartupActionView {
        match *self {
            StartupAction::Connect { create_if_missing, busy_timeout, write_ahead_log } =>
                StartupActionView::Connect {
                create_if_missing,
                busy_timeout: busy_timeout@,
                write_ahead_log,
            },
            StartupAction::Migrate => StartupActionView::Migrate,
            StartupAction::Seed(token) => StartupActionView::Seed(token@),
            StartupAction::BuildMockClient => StartupActionView::BuildMockClient,
            StartupAction::BuildClient(url) => StartupActionView::BuildClient(url@),
            StartupAction::BuildExchanger { token_url, client_id, client_secret } =>
                StartupActionView::BuildExchanger {
                token_url: token_url@,
                client_id: client_id@,
                client_secret: client_secret@,
            },
            StartupAction::Ready => StartupActionView::Ready,
            StartupAction::Fail(e) => StartupActionView::Fail(e@),
        }
    }
}

/// What came of a step: nothing to speak of, or why it failed.
pub open spec fn step_view(result: Result<(), String>) -> Result<(), Seq<char>> {
    match result {
        Ok(()) => Ok(()),
        Err(why) => Err(why@),
    }
}

/// The database is opened: made where it is missing, with a write-ahead log,
/// and with five seconds of patience for another writer.
pub open spec fn connect_view() -> StartupActionView {
    StartupActionView::Connect {
        create_if_missing: true,
        busy_timeout: 5_000_000_000,
        write_ahead_log: true,
    }
}

/// Startup goes on to build the client of the upstream API.
pub open spec fn client_step(config: ConfigView) -> (StartupState, StartupActionView) {
    (
        StartupState::BuildingClient,
        if config.mock_data {
            StartupActionView::BuildMockClient
        } else {
            StartupActionView::BuildClient(API_BASE_URL@)
        },
    )
}

/// How startup goes on after the step of `state` has succeeded.
pub open spec fn startup_onward(config: ConfigView, state: StartupState) -> (
    StartupState,
    StartupActionView,
) {
    match state {
        StartupState::ReadingUrl => (StartupState::Connecting, connect_view()),
        StartupState::Connecting => (StartupState::Migrating, StartupActionView::Migrate),
        StartupState::Migrating => if config.mock_data {
            (
                StartupState::Seeding,
                StartupActionView::Seed(mock_token(config.owner_spotify_user_id)),
            )
        } else {
            client_step(config)
        },
        StartupState::Seeding => client_step(config),
        StartupState::BuildingClient => (
            StartupState::BuildingExchanger,
            StartupActionView::BuildExchanger {
                token_url: TOKEN_URL@,
                client_id: config.spotify_client_id,
                client_secret: config.spotify_client_secret,
            },
        ),
        StartupState::BuildingExchanger => (StartupState::Finished, StartupActionView::Ready),
        StartupState::Finished => arbitrary(),
    }
}

/// The error that names the step of `state`.
pub open spec fn step_error(state: StartupState, why: Seq<char>) -> InitErrorView {
    match state {
        StartupState::ReadingUrl => InitErrorView::InvalidDatabaseUrl(why),
        StartupState::Connecting => InitErrorView::SqliteConnect(why),
        StartupState::Migrating => InitErrorView::Migrate(why),
        StartupState::Seeding => InitErrorView::Seed(why),
        StartupState::BuildingClient => InitErrorView::SpotifyClient(why),
        StartupState::BuildingExchanger => InitErrorView::OAuthClient(why),
        StartupState::Finished => arbitrary(),
    }
}

/// How startup goes on after the step of `state`.
pub open spec fn startup_next(
    config: ConfigView,
    state: StartupState,
    result: Result<(), Seq<char>>,
) -> (StartupState, StartupActionView) {
    match result {
        Ok(()) => startup_onward(config, state),
        Err(why) => (StartupState::Finished, StartupActionView::Fail(step_error(state, why))),
    }
}

/// `sqlx::sqlite::SqliteConnectOptions`, how to open a database.
#[verifier::external_type_specification]
#[verifier::external_body]
pub struct ExSqliteConnectOptions(SqliteConnectOptions);

/// What `sqlx::sqlite::SqliteConnectOptions::from_str` makes of a URL:
/// whether it can be read and, if not, the error in words.
pub uninterp spec fn sqlite_url_outcome(url: Seq<char>) -> Result<(), Seq<char>>;

/// `sqlx::sqlite::SqliteConnectOptions::from_str`, with its error in words.
/// Claimed: whether the URL can be read, and the error, depend on the URL
/// alone. Of the options nothing is claimed.
#[verifier::external_body]
fn read_sqlite_url(url: &str) -> (read: Result<SqliteConnectOptions, String>)
    ensures
        match read {
            Ok(_) => sqlite_url_outcome(url@) is Ok,
            Err(why) => sqlite_url_outcome(url@) == Err::<(), Seq<char>>(why@),
        },
{
    SqliteConnectOptions::from_str(url).map_err(|e| e.to_string())
}

/// These are the options that the URL gives.
pub closed spec fn options_of(url: Seq<char>, options: SqliteConnectOptions) -> bool {
    exists|s: &str|
        s@ == url && #[trigger] call_ensures(
            read_sqlite_url,
            (s,),
            Ok::<SqliteConnectOptions, String>(options),
        )
}

/// How to open the database that the settings name.
pub fn connect_options(config: &Config) -> (options: Result<SqliteConnectOptions, InitError>)
    ensures
        match options {
            Ok(o) => sqlite_url_outcome(config@.database_url) is Ok && options_of(
                config@.database_url,
                o,
            ),
            Err(e) => {
                &&& sqlite_url_outcome(config@.database_url) is Err
                &&& e@ == InitErrorView::InvalidDatabaseUrl(
                    sqlite_url_outcome(config@.database_url)->Err_0,
                )
            },
        },
{
    match read_sqlite_url(config.database_url.as_str()) {
        Ok(options) => Ok(options),
        Err(why) => Err(InitError::InvalidDatabaseUrl(why)),
    }
}

/// What startup goes on with once it has settings and knows the database.
pub struct Opening {
    pub config: Config,
    pub options: SqliteConnectOptions,
    pub state: StartupState,
    pub action: StartupAction,
}

/// Begin to start up, with the settings or why there are none. Nothing is
/// touched before the settings are there and their URL can be read.
pub fn startup_start(settings: Result<Config, ConfigError>) -> (opening: Result<Opening, InitError>)
    ensures
        match settings {
            Err(e) => opening == Err::<Opening, InitError>(InitError::Config(e)),
            Ok(config) => match sqlite_url_outcome(config@.database_url) {
                Err(why) => opening is Err && opening->Err_0@ == step_error(
                    StartupState::ReadingUrl,
                    why,
                ),
                Ok(()) => {
                    &&& opening is Ok
                    &&& opening->Ok_0.config@ == config@
                    &&& options_of(config@.database_url, opening->Ok_0.options)
                    &&& (opening->Ok_0.state, opening->Ok_0.action@) == startup_next(
                        config@,
                        StartupState::ReadingUrl,
                        Ok(()),
                    )
                },
            },
        },
{
    let config = match settings {
        Ok(config) => config,
        Err(e) => return Err(InitError::from(e)),
    };
    match connect_options(&config) {
        Ok(options) => {
            let (state, action) = startup_step(&config, StartupState::ReadingUrl, Ok(()));
            Ok(Opening { config, options, state, action })
        },
        Err(e) => Err(e),
    }
}

fn build_client(config: &Config) -> (next: (StartupState, StartupAction))
    ensures
        (next.0, next.1@) == client_step(config@),
{
    (
        StartupState::BuildingClient,
        if config.mock_data {
            StartupAction::BuildMockClient
        } else {
            StartupAction::BuildClient(API_BASE_URL)
        },
    )
}

fn go_onward(config: &Config, state: StartupState) -> (next: (StartupState, StartupAction))
    requires
        state !is Finished,
    ensures
        (next.0, next.1@) == startup_onward(config@, state),
{
    match state {
        StartupState::ReadingUrl => (
            StartupState::Connecting,
            StartupAction::Connect {
                create_if_missing: true,
                busy_timeout: Duration::from_secs(5),
                write_ahead_log: true,
            },
        ),
        StartupState::Connecting => (StartupState::Migrating, StartupAction::Migrate),
        StartupState::Migrating => if config.mock_data {
            (
                StartupState::Seeding,
                StartupAction::Seed(mock_record(config.owner_spotify_user_id.as_str())),
            )
        } else {
            build_client(config)
        },
        StartupState::Seeding => build_client(config),
        StartupState::BuildingClient => (
            StartupState::BuildingExchanger,
            StartupAction::BuildExchanger {
                token_url: TOKEN_URL,
                client_id: config.spotify_client_id.clone(),
                client_secret: config.spotify_client_secret.clone(),
            },
        ),
        StartupState::BuildingExchanger | StartupState::Finished => (
            StartupState::Finished,
            StartupAction::Ready,
        ),
    }
}

/// Go on with startup after a step.
pub fn startup_step(config: &Config, state: StartupState, result: Result<(), String>) -> (next: (
    StartupState,
    StartupAction,
))
    requires
        state !is Finished,
    ensures
        (next.0, next.1@) == startup_next(config@, state, step_view(result)),
{
    let why: String = match result {
        Ok(()) => return go_onward(config, state),
        Err(why) => why,
    };
    let e: InitError = match state {
        StartupState::ReadingUrl => InitError::InvalidDatabaseUrl(why),
        StartupState::Connecting => InitError::SqliteConnect(why),
        StartupState::Migrating => InitError::Migrate(why),
        StartupState::Seeding => InitError::Seed(why),
        StartupState::BuildingClient => InitError::SpotifyClient(why),
        StartupState::BuildingExchanger | StartupState::Finished => InitError::OAuthClient(why),
    };
    (StartupState::Finished, StartupAction::Fail(e))
}

/// Where startup stands after these steps, of which the first is to read
/// the database URL, and what it does then.
pub open spec fn startup_after(
    config: ConfigView,
    results: Seq<Result<(), Seq<char>>>,
) -> (StartupState, StartupActionView)
    decreases results.len(),
{
    if results.len() <= 1 {
        startup_next(config, StartupState::ReadingUrl, results[0])
    } else {
        let before = startup_after(config, results.drop_last());
        if before.0 is Finished {
            before
        } else {
            startup_next(config, before.0, results.last())
        }
    }
}

/// How many steps lie behind `state`.
spec fn steps_behind(config: ConfigView, state: StartupState) -> nat {
    let seeded: nat = if config.mock_data {
        1
    } else {
        0
    };
    match state {
        StartupState::ReadingUrl => 0,
        StartupState::Connecting => 1,
        StartupState::Migrating => 2,
        StartupState::Seeding => 3,
        StartupState::BuildingClient => 3 + seeded,
        StartupState::BuildingExchanger => 4 + seeded,
        StartupState::Finished => 5 + seeded,
    }
}

proof fn lemma_steps(config: ConfigView, results: Seq<Result<(), Seq<char>>>)
    requires
        results.len() > 0,
    ensures
        ({
            let (state, action) = startup_after(config, results);
            let n = steps_behind(config, state);
            &&& state is Finished || results.len() == n
            &&& action is Ready ==> state is Finished && results.len() >= n
            &&& state !is Finished || action is Ready ==> forall|i: int|
                0 <= i < n ==> #[trigger] results[i] is Ok
            &&& state is Finished ==> action is Ready || action is Fail
            &&& state is Seeding ==> config.mock_data
            &&& action is Seed || action is BuildMockClient ==> config.mock_data
            &&& action is BuildClient ==> !config.mock_data
        }),
    decreases results.len(),
{
    if results.len() > 1 {
        let shorter = results.drop_last();
        lemma_steps(config, shorter);
        assert(forall|i: int| 0 <= i < shorter.len() ==> shorter[i] == #[trigger] results[i]);
    }
}

/// The service listens only after every step has succeeded, in its order:
/// five steps, or six where the stand-in token is stored too. In
/// particular the schema is up to date by then.
pub proof fn ready_after_every_step(config: ConfigView, results: Seq<Result<(), Seq<char>>>)
    requires
        results.len() > 0,
        startup_after(config, results).1 is Ready,
    ensures
        ({
            let steps: int = if config.mock_data {
                6
            } else {
                5
            };
            results.len() >= steps && forall|i: int|
                0 <= i < steps ==> #[trigger] results[i] is Ok
        }),
{
    lemma_steps(config, results);
}

/// The error tells which step failed: those of two different steps differ,
/// and none of them looks like bad settings.
pub proof fn failure_names_the_step(
    a: StartupState,
    b: StartupState,
    why_a: Seq<char>,
    why_b: Seq<char>,
)
    requires
        a !is Finished,
        b !is Finished,
        step_error(a, why_a) == step_error(b, why_b),
    ensures
        a == b,
        step_error(a, why_a) !is Config,
{
}

/// The stand-in token is stored, and canned replies are served, only where
/// the settings ask for it, and the upstream API is called only where they
/// do not.
pub proof fn mock_only_on_demand(config: ConfigView, results: Seq<Result<(), Seq<char>>>)
    requires
        results.len() > 0,
    ensures
        ({
            let action = startup_after(config, results).1;
            &&& action is Seed || action is BuildMockClient ==> config.mock_data
            &&& action is BuildClient ==> !config.mock_data
        }),
{
    lemma_steps(config, results);
}

} // verus!
