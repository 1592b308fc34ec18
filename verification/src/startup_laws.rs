//! Startup step by step: what each success leads to, and what each failure
//! is reported as.

use vstd::prelude::*;

use sqlx::sqlite::SqliteConnectOptions;

use crate::config::{Config, ConfigError};
use crate::domain::tokens::TokenRecord;
use crate::startup::{
    self, connect_options, mock_record, startup_start, startup_step, InitError, Opening, StartupAction,
    StartupState,
};

verus! {

/// The client of the upstream API is built: the one that serves canned
/// replies where the settings ask for it, else the one that calls the API.
pub open spec fn builds_the_client(
    config: Config,
    next: (StartupState, StartupAction),
) -> bool {
    &&& next.0 is BuildingClient
    &&& config.mock_data ==> next.1 is BuildMockClient
    &&& !config.mock_data ==> (next.1 matches StartupAction::BuildClient(url) && url@
        == "https://api.spotify.com"@)
}

/// With the URL read, the database is opened: made where it is missing,
/// with a write-ahead log, waiting five seconds for another writer.
pub proof fn first_the_database_is_opened(config: &Config, next: (StartupState, StartupAction))
    requires
        call_ensures(
            startup_step,
            (config, StartupState::ReadingUrl, Ok::<(), String>(())),
            next,
        ),
    ensures
        next.0 is Connecting,
        next.1 matches StartupAction::Connect { create_if_missing, busy_timeout, write_ahead_log }
            && create_if_missing && write_ahead_log && busy_timeout@ == 5 * 1_000_000_000,
{
    assert(next.1@ is Connect);
    if let StartupAction::Connect { busy_timeout, .. } = next.1 {
        assert(next.1@ == startup::connect_view());
    }
}

/// Then the schema is brought up to date.
pub proof fn then_the_schema_is_brought_up_to_date(
    config: &Config,
    next: (StartupState, StartupAction),
)
    requires
        call_ensures(
            startup_step,
            (config, StartupState::Connecting, Ok::<(), String>(())),
            next,
        ),
    ensures
        next.0 is Migrating && next.1 is Migrate,
{
}

/// Then the stand-in token is stored where canned replies are served, in
/// the owner's name and valid to the end of the century; where they are
/// not, nothing is stored.
pub proof fn then_the_stand_in_token_is_stored(
    config: &Config,
    next: (StartupState, StartupAction),
)
    requires
        call_ensures(
            startup_step,
            (config, StartupState::Migrating, Ok::<(), String>(())),
            next,
        ),
    ensures
        config.mock_data ==> next.0 is Seeding && (next.1 matches StartupAction::Seed(token)
            && token.owner_id@ == config.owner_spotify_user_id@ && token.access_token@
            == "MOCK_ACCESS_NEVER_SENT"@ && token.refresh_token@ == "MOCK_REFRESH_NEVER_SENT"@
            && token.expires_at.secs == 4_102_444_800 && token.expires_at.nanos == 0),
        !config.mock_data ==> builds_the_client(*config, next),
{
}

/// Then the client of the upstream API is built.
pub proof fn then_the_client_is_built(config: &Config, next: (StartupState, StartupAction))
    requires
        call_ensures(startup_step, (config, StartupState::Seeding, Ok::<(), String>(())), next),
    ensures
        builds_the_client(*config, next),
{
}

/// Then that of the token endpoint, with the credentials of the settings.
pub proof fn then_the_token_client_is_built(config: &Config, next: (StartupState, StartupAction))
    requires
        call_ensures(
            startup_step,
            (config, StartupState::BuildingClient, Ok::<(), String>(())),
            next,
        ),
    ensures
        next.0 is BuildingExchanger,
        next.1 matches StartupAction::BuildExchanger { token_url, client_id, client_secret }
            && token_url@ == "https://accounts.spotify.com/api/token"@ && client_id@
            == config.spotify_client_id@ && client_secret@ == config.spotify_client_secret@,
{
}

/// And then the service listens.
pub proof fn at_last_the_service_listens(config: &Config, next: (StartupState, StartupAction))
    requires
        call_ensures(
            startup_step,
            (config, StartupState::BuildingExchanger, Ok::<(), String>(())),
            next,
        ),
    ensures
        next.0 is Finished && next.1 is Ready,
{
}

/// A step that fails ends startup, with the error of that step and the very
/// reason that was given.
pub proof fn a_failed_step_ends_startup(
    config: &Config,
    state: StartupState,
    why: String,
    next: (StartupState, StartupAction),
)
    requires
        state !is Finished,
        call_ensures(startup_step, (config, state, Err::<(), String>(why)), next),
    ensures
        next.0 is Finished,
        next.1 matches StartupAction::Fail(e) && match state {
            StartupState::ReadingUrl => e matches InitError::InvalidDatabaseUrl(w) && w@ == why@,
            StartupState::Connecting => e matches InitError::SqliteConnect(w) && w@ == why@,
            StartupState::Migrating => e matches InitError::Migrate(w) && w@ == why@,
            StartupState::Seeding => e matches InitError::Seed(w) && w@ == why@,
            StartupState::BuildingClient => e matches InitError::SpotifyClient(w) && w@ == why@,
            StartupState::BuildingExchanger => e matches InitError::OAuthClient(w) && w@ == why@,
            StartupState::Finished => true,
        },
{
}

/// Startup begins with the settings: without them, or with a database URL
/// that cannot be read, it ends at once. Otherwise the settings go along as
/// they are, and the database is opened.
pub proof fn startup_begins_with_the_settings(
    settings: Result<Config, ConfigError>,
    opening: Result<Opening, InitError>,
)
    requires
        call_ensures(startup_start, (settings,), opening),
    ensures
        settings matches Err(e) ==> (opening matches Err(InitError::Config(same)) && same == e),
        settings matches Ok(config) ==> {
            let read = startup::sqlite_url_outcome(config.database_url@);
            &&& read matches Err(why) ==> (opening matches Err(InitError::InvalidDatabaseUrl(w))
                && w@ == why)
            &&& read is Ok ==> (opening matches Ok(o) && o.config@ == config@
                && o.state is Connecting && o.action is Connect && startup::options_of(
                config.database_url@,
                o.options,
            ))
        },
{
    if let Ok(config) = settings {
        assert(config@.database_url == config.database_url@);
    }
}

/// The database that the settings name can be opened exactly where its URL
/// can be read; otherwise the error says that the URL is invalid, and why.
pub proof fn the_url_must_be_readable(
    config: &Config,
    options: Result<SqliteConnectOptions, InitError>,
)
    requires
        call_ensures(connect_options, (config,), options),
    ensures
        options is Ok <==> startup::sqlite_url_outcome(config.database_url@) is Ok,
        options matches Ok(o) ==> startup::options_of(config.database_url@, o),
        options matches Err(e) ==> (e matches InitError::InvalidDatabaseUrl(w) && w@
            == startup::sqlite_url_outcome(config.database_url@)->Err_0),
{
    assert(config@.database_url == config.database_url@);
}

/// The stand-in token.
pub proof fn the_stand_in_token(owner_id: &str, token: TokenRecord)
    requires
        call_ensures(mock_record, (owner_id,), token),
    ensures
        token.owner_id@ == owner_id@,
        token.access_token@ == "MOCK_ACCESS_NEVER_SENT"@,
        token.refresh_token@ == "MOCK_REFRESH_NEVER_SENT"@,
        token.scope@
            == "user-read-private user-read-playback-state user-read-recently-played user-top-read playlist-read-private user-follow-read"@,
        token.expires_at.secs == 4_102_444_800,
        token.expires_at.nanos == 0,
{
}

/// A failed startup is told in words: which step it was, and why.
pub proof fn failed_startups_in_words(e: &InitError, words: String)
    requires
        call_ensures(InitError::message, (e,), words),
    ensures
        words@ == match *e {
            InitError::Config(ConfigError::Missing(name)) => "config invalid: "@ + (
            "required env var "@ + name@ + " is unset or empty"@),
            InitError::InvalidDatabaseUrl(why) => "invalid DATABASE_URL: "@ + why@,
            InitError::SqliteConnect(why) => "sqlite connect failed: "@ + why@,
            InitError::Migrate(why) => "migrations failed: "@ + why@,
            InitError::Seed(why) => "mock token seed failed: "@ + why@,
            InitError::SpotifyClient(why) => "spotify client init failed: "@ + why@,
            InitError::OAuthClient(why) => "oauth client init failed: "@ + why@,
        },
{
}

} // verus!
