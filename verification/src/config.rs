//! Settings: what the environment gives at startup, and the pacing that is
//! fixed in code.

use vstd::prelude::*;
use vstd::string::*;

use crate::time::Duration;

verus! {

// Names of the environment variables.

pub const OWNER_SPOTIFY_USER_ID: &'static str = "OWNER_SPOTIFY_USER_ID";

pub const AUTH_BASIC_USERNAME: &'static str = "AUTH_BASIC_USERNAME";

pub const AUTH_BASIC_PASSWORD: &'static str = "AUTH_BASIC_PASSWORD";

pub const SPOTIFY_CLIENT_ID: &'static str = "SPOTIFY_CLIENT_ID";

pub const SPOTIFY_CLIENT_SECRET: &'static str = "SPOTIFY_CLIENT_SECRET";

pub const SPOTIFY_REDIRECT_URI: &'static str = "SPOTIFY_REDIRECT_URI";

pub const DATABASE_URL: &'static str = "DATABASE_URL";

/// Any non-empty value makes the service serve canned replies instead of
/// calling the upstream API.
pub const MOCK_DATA: &'static str = "MOCK_DATA";

/// The user name where the environment names none.
pub const DEFAULT_AUTH_BASIC_USERNAME: &'static str = "owner";

/// What a secret is shown as.
pub const REDACTED: &'static str = "<redacted>";

/// The address to listen on where the environment names none.
pub const DEFAULT_BIND_ADDR: &'static str = "0.0.0.0:8080";

/// Why there are no settings.
#[derive(Debug, PartialEq, Eq)]
pub enum ConfigError {
    /// The named variable is unset or empty.
    Missing(&'static str),
}

impl ConfigError {
    pub open spec fn message_view(self) -> Seq<char> {
        match self {
            ConfigError::Missing(key) => "required env var "@ + key@ + " is unset or empty"@,
        }
    }

    /// The failure in words.
    pub fn message(&self) -> (m: String)
        ensures
            m@ == self.message_view(),
    {
        match self {
            ConfigError::Missing(key) => "required env var ".to_owned().concat(key).concat(
                " is unset or empty",
            ),
        }
    }
}

/// How long each scheduler sleeps between two ticks.
#[derive(Debug, PartialEq, Eq, Clone, Copy)]
pub struct SchedulerIntervals {
    pub now: Duration,
    pub recent: Duration,
    pub top: Duration,
    pub profile: Duration,
    pub playlists: Duration,
}

/// The intervals in nanoseconds.
pub struct IntervalsView {
    pub now: nat,
    pub recent: nat,
    pub top: nat,
    pub profile: nat,
    pub playlists: nat,
}

impl View for SchedulerIntervals {
    type V = IntervalsView;

    open spec fn view(&self) -> IntervalsView {
        IntervalsView {
            now: self.now@,
            recent: self.recent@,
            top: self.top@,
            profile: self.profile@,
            playlists: self.playlists@,
        }
    }
}

/// Five seconds for the player state, five minutes for everything else.
pub open spec fn default_intervals() -> IntervalsView {
    IntervalsView {
        now: 5_000_000_000,
        recent: 300_000_000_000,
        top: 300_000_000_000,
        profile: 300_000_000_000,
        playlists: 300_000_000_000,
    }
}

impl Default for SchedulerIntervals {
    fn default() -> (intervals: SchedulerIntervals)
        ensures
            intervals@ == default_intervals(),
    {
        SchedulerIntervals {
            now: Duration::from_secs(5),
            recent: Duration::from_secs(300),
            top: Duration::from_secs(300),
            profile: Duration::from_secs(300),
            playlists: Duration::from_secs(300),
        }
    }
}

/// Pacing of the schedulers, and the idle time after which they park.
#[derive(Debug, PartialEq, Eq, Clone, Copy)]
pub struct SchedulerConfig {
    pub intervals: SchedulerIntervals,
    pub idle_threshold: Duration,
}

/// The pacing in nanoseconds.
pub struct SchedulerView {
    pub intervals: IntervalsView,
    pub idle_threshold: nat,
}

impl View for SchedulerConfig {
    type V = SchedulerView;

    open spec fn view(&self) -> SchedulerView {
        SchedulerView { intervals: self.intervals@, idle_threshold: self.idle_threshold@ }
    }
}

/// The default intervals, and an idle threshold of one minute.
pub open spec fn default_scheduler() -> SchedulerView {
    SchedulerView { intervals: default_intervals(), idle_threshold: 60_000_000_000 }
}

impl Default for SchedulerConfig {
    fn default() -> (scheduler: SchedulerConfig)
        ensures
            scheduler@ == default_scheduler(),
    {
        SchedulerConfig {
            intervals: SchedulerIntervals::default(),
            idle_threshold: Duration::from_secs(60),
        }
    }
}

/// The settings of a running service. They hold secrets, so only what
/// [`Config::redacted`] gives is for showing.
#[derive(PartialEq, Eq)]
pub struct Config {
    pub owner_spotify_user_id: String,
    pub auth_basic_username: String,
    pub auth_basic_password: String,
    pub spotify_client_id: String,
    pub spotify_client_secret: String,
    pub spotify_redirect_uri: String,
    pub database_url: String,
    pub mock_data: bool,
    pub scheduler: SchedulerConfig,
}

/// What a [`Config`] holds.
pub struct ConfigView {
    pub owner_spotify_user_id: Seq<char>,
    pub auth_basic_username: Seq<char>,
    pub auth_basic_password: Seq<char>,
    pub spotify_client_id: Seq<char>,
    pub spotify_client_secret: Seq<char>,
    pub spotify_redirect_uri: Seq<char>,
    pub database_url: Seq<char>,
    pub mock_data: bool,
    pub scheduler: SchedulerView,
}

impl View for Config {
    type V = ConfigView;

    open spec fn view(&self) -> ConfigView {
        ConfigView {
            owner_spotify_user_id: self.owner_spotify_user_id@,
            auth_basic_username: self.auth_basic_username@,
            auth_basic_password: self.auth_basic_password@,
            spotify_client_id: self.spotify_client_id@,
            spotify_client_secret: self.spotify_client_secret@,
            spotify_redirect_uri: self.spotify_redirect_uri@,
            database_url: self.database_url@,
            mock_data: self.mock_data,
            scheduler: self.scheduler@,
        }
    }
}

impl Clone for Config {
    fn clone(&self) -> (same: Config)
        ensures
            same@ == self@,
    {
        Config {
            owner_spotify_user_id: self.owner_spotify_user_id.clone(),
            auth_basic_username: self.auth_basic_username.clone(),
            auth_basic_password: self.auth_basic_password.clone(),
            spotify_client_id: self.spotify_client_id.clone(),
            spotify_client_secret: self.spotify_client_secret.clone(),
            spotify_redirect_uri: self.spotify_redirect_uri.clone(),
            database_url: self.database_url.clone(),
            mock_data: self.mock_data,
            scheduler: self.scheduler,
        }
    }
}

/// The values of the environment variables; none for one that is unset.
pub struct EnvValues {
    pub owner_spotify_user_id: Option<String>,
    pub auth_basic_password: Option<String>,
    pub auth_basic_username: Option<String>,
    pub spotify_client_id: Option<String>,
    pub spotify_client_secret: Option<String>,
    pub spotify_redirect_uri: Option<String>,
    pub database_url: Option<String>,
    pub mock_data: Option<String>,
}

/// What an [`EnvValues`] holds.
pub struct EnvView {
    pub owner_spotify_user_id: Option<Seq<char>>,
    pub auth_basic_password: Option<Seq<char>>,
    pub auth_basic_username: Option<Seq<char>>,
    pub spotify_client_id: Option<Seq<char>>,
    pub spotify_client_secret: Option<Seq<char>>,
    pub spotify_redirect_uri: Option<Seq<char>>,
    pub database_url: Option<Seq<char>>,
    pub mock_data: Option<Seq<char>>,
}

/// The text of a string that may be missing.
pub open spec fn text_of(s: Option<String>) -> Option<Seq<char>> {
    match s {
        Some(s) => Some(s@),
        None => None,
    }
}

impl View for EnvValues {
    type V = EnvView;

    open spec fn view(&self) -> EnvView {
        EnvView {
            owner_spotify_user_id: text_of(self.owner_spotify_user_id),
            auth_basic_password: text_of(self.auth_basic_password),
            auth_basic_username: text_of(self.auth_basic_username),
            spotify_client_id: text_of(self.spotify_client_id),
            spotify_client_secret: text_of(self.spotify_client_secret),
            spotify_redirect_uri: text_of(self.spotify_redirect_uri),
            database_url: text_of(self.database_url),
            mock_data: text_of(self.mock_data),
        }
    }
}

/// A variable counts as set where it has a value that is not empty.
pub open spec fn is_set(value: Option<Seq<char>>) -> bool {
    value is Some && value->0.len() > 0
}

/// The settings that an environment gives, or the name of the first
/// required variable that is not set.
pub open spec fn settings_of(env: EnvView) -> Result<ConfigView, Seq<char>> {
    if !is_set(env.owner_spotify_user_id) {
        Err(OWNER_SPOTIFY_USER_ID@)
    } else if !is_set(env.auth_basic_password) {
        Err(AUTH_BASIC_PASSWORD@)
    } else if !is_set(env.spotify_client_id) {
        Err(SPOTIFY_CLIENT_ID@)
    } else if !is_set(env.spotify_client_secret) {
        Err(SPOTIFY_CLIENT_SECRET@)
    } else if !is_set(env.spotify_redirect_uri) {
        Err(SPOTIFY_REDIRECT_URI@)
    } else if !is_set(env.database_url) {
        Err(DATABASE_URL@)
    } else {
        Ok(
            ConfigView {
                owner_spotify_user_id: env.owner_spotify_user_id->0,
                auth_basic_username: if is_set(env.auth_basic_username) {
                    env.auth_basic_username->0
                } else {
                    DEFAULT_AUTH_BASIC_USERNAME@
                },
                auth_basic_password: env.auth_basic_password->0,
                spotify_client_id: env.spotify_client_id->0,
                spotify_client_secret: env.spotify_client_secret->0,
                spotify_redirect_uri: env.spotify_redirect_uri->0,
                database_url: env.database_url->0,
                mock_data: is_set(env.mock_data),
                scheduler: default_scheduler(),
            },
        )
    }
}

/// The outcome of reading the settings, in terms of what it holds.
pub open spec fn outcome_view(outcome: Result<Config, ConfigError>) -> Result<
    ConfigView,
    Seq<char>,
> {
    match outcome {
        Ok(config) => Ok(config@),
        Err(ConfigError::Missing(key)) => Err(key@),
    }
}

/// `get`, asked for `key`, may answer `value`.
pub open spec fn answers<F: Fn(&str) -> Option<String>>(
    get: F,
    key: &str,
    value: Option<Seq<char>>,
) -> bool {
    exists|answer: Option<String>|
        #[trigger] call_ensures(get, (key,), answer) && text_of(answer) == value
}

/// `env` holds what `get` answered, as far as it was asked: the required
/// variables in order up to the first that is not set, the optional ones
/// once those before them are set.
pub open spec fn answered<F: Fn(&str) -> Option<String>>(get: F, env: EnvView) -> bool {
    &&& answers(get, OWNER_SPOTIFY_USER_ID, env.owner_spotify_user_id)
    &&& is_set(env.owner_spotify_user_id) ==> {
        &&& answers(get, AUTH_BASIC_PASSWORD, env.auth_basic_password)
        &&& is_set(env.auth_basic_password) ==> {
            &&& answers(get, AUTH_BASIC_USERNAME, env.auth_basic_username)
            &&& answers(get, SPOTIFY_CLIENT_ID, env.spotify_client_id)
            &&& is_set(env.spotify_client_id) ==> {
                &&& answers(get, SPOTIFY_CLIENT_SECRET, env.spotify_client_secret)
                &&& is_set(env.spotify_client_secret) ==> {
                    &&& answers(get, SPOTIFY_REDIRECT_URI, env.spotify_redirect_uri)
                    &&& is_set(env.spotify_redirect_uri) ==> {
                        &&& answers(get, DATABASE_URL, env.database_url)
                        &&& is_set(env.database_url) ==> answers(get, MOCK_DATA, env.mock_data)
                    }
                }
            }
        }
    }
}

fn set(value: &Option<String>) -> (yes: bool)
    ensures
        yes == is_set(text_of(*value)),
{
    match value {
        Some(v) => !v.as_str().is_empty(),
        None => false,
    }
}

fn required(value: Option<String>, key: &'static str) -> (r: Result<String, ConfigError>)
    ensures
        match r {
            Ok(v) => is_set(text_of(value)) && v@ == text_of(value)->0,
            Err(ConfigError::Missing(k)) => !is_set(text_of(value)) && k == key,
        },
{
    if set(&value) {
        if let Some(v) = value {
            return Ok(v);
        }
    }
    Err(ConfigError::Missing(key))
}

impl Config {
    /// The settings that the given values make. An empty value counts as
    /// unset.
    pub fn from_values(env: EnvValues) -> (outcome: Result<Config, ConfigError>)
        ensures
            outcome_view(outcome) == settings_of(env@),
    {
        let owner_spotify_user_id = required(env.owner_spotify_user_id, OWNER_SPOTIFY_USER_ID)?;
        let auth_basic_password = required(env.auth_basic_password, AUTH_BASIC_PASSWORD)?;
        let auth_basic_username = match required(env.auth_basic_username, AUTH_BASIC_USERNAME) {
            Ok(name) => name,
            Err(_) => DEFAULT_AUTH_BASIC_USERNAME.to_owned(),
        };
        let spotify_client_id = required(env.spotify_client_id, SPOTIFY_CLIENT_ID)?;
        let spotify_client_secret = required(env.spotify_client_secret, SPOTIFY_CLIENT_SECRET)?;
        let spotify_redirect_uri = required(env.spotify_redirect_uri, SPOTIFY_REDIRECT_URI)?;
        let database_url = required(env.database_url, DATABASE_URL)?;
        Ok(
            Config {
                owner_spotify_user_id,
                auth_basic_username,
                auth_basic_password,
                spotify_client_id,
                spotify_client_secret,
                spotify_redirect_uri,
                database_url,
                mock_data: set(&env.mock_data),
                scheduler: SchedulerConfig::default(),
            },
        )
    }

    /// The settings that `get` gives, asked for one variable after another.
    /// It is not asked on once a required variable proves unset.
    pub fn from_lookup<F>(get: F) -> (outcome: Result<Config, ConfigError>) where
        F: Fn(&str) -> Option<String>,

        requires
            forall|key: &str| call_requires(get, (key,)),
        ensures
            exists|env: EnvView| #[trigger] answered(get, env) && outcome_view(outcome)
                == settings_of(env),
    {
        let mut env = EnvValues {
            owner_spotify_user_id: None,
            auth_basic_password: None,
            auth_basic_username: None,
            spotify_client_id: None,
            spotify_client_secret: None,
            spotify_redirect_uri: None,
            database_url: None,
            mock_data: None,
        };
        env.owner_spotify_user_id = get(OWNER_SPOTIFY_USER_ID);
        if set(&env.owner_spotify_user_id) {
            env.auth_basic_password = get(AUTH_BASIC_PASSWORD);
            if set(&env.auth_basic_password) {
                env.auth_basic_username = get(AUTH_BASIC_USERNAME);
                env.spotify_client_id = get(SPOTIFY_CLIENT_ID);
                if set(&env.spotify_client_id) {
                    env.spotify_client_secret = get(SPOTIFY_CLIENT_SECRET);
                    if set(&env.spotify_client_secret) {
                        env.spotify_redirect_uri = get(SPOTIFY_REDIRECT_URI);
                        if set(&env.spotify_redirect_uri) {
                            env.database_url = get(DATABASE_URL);
                            if set(&env.database_url) {
                                env.mock_data = get(MOCK_DATA);
                            }
                        }
                    }
                }
            }
        }
        assert(answered(get, env@));
        Config::from_values(env)
    }

    /// The same settings with the two secrets blotted out, for showing.
    pub fn redacted(&self) -> (shown: Config)
        ensures
            shown@ == redacted_view(self@),
    {
        Config {
            owner_spotify_user_id: self.owner_spotify_user_id.clone(),
            auth_basic_username: self.auth_basic_username.clone(),
            auth_basic_password: REDACTED.to_owned(),
            spotify_client_id: self.spotify_client_id.clone(),
            spotify_client_secret: REDACTED.to_owned(),
            spotify_redirect_uri: self.spotify_redirect_uri.clone(),
            database_url: self.database_url.clone(),
            mock_data: self.mock_data,
            scheduler: self.scheduler,
        }
    }
}

/// What is shown of settings: everything but the password and the client
/// secret.
pub open spec fn redacted_view(config: ConfigView) -> ConfigView {
    ConfigView {
        auth_basic_password: REDACTED@,
        spotify_client_secret: REDACTED@,
        ..config
    }
}

/// What is shown of settings does not depend on their secrets.
pub proof fn secrets_do_not_show(a: ConfigView, b: ConfigView)
    requires
        b == (ConfigView {
            auth_basic_password: b.auth_basic_password,
            spotify_client_secret: b.spotify_client_secret,
            ..a
        }),
    ensures
        redacted_view(a) == redacted_view(b),
{
}

/// Settings are there exactly where every required variable is set.
pub proof fn settings_owed(env: EnvView)
    ensures
        settings_of(env) is Ok <==> {
            &&& is_set(env.owner_spotify_user_id)
            &&& is_set(env.auth_basic_password)
            &&& is_set(env.spotify_client_id)
            &&& is_set(env.spotify_client_secret)
            &&& is_set(env.spotify_redirect_uri)
            &&& is_set(env.database_url)
        },
{
}

/// The address to listen on: the value of the environment variable, even
/// an empty one, or the default where it is unset.
pub fn bind_addr(value: Option<String>) -> (addr: String)
    ensures
        addr@ == match text_of(value) {
            Some(v) => v,
            None => DEFAULT_BIND_ADDR@,
        },
{
    match value {
        Some(v) => v,
        None => DEFAULT_BIND_ADDR.to_owned(),
    }
}

/// The log filter: `base` where it is set, else `info`; with the bodies of
/// requests and replies added where `wire_bodies` is set.
pub open spec fn log_filter_view(
    wire_bodies: Option<Seq<char>>,
    base: Option<Seq<char>>,
) -> Seq<char> {
    let start = if is_set(base) {
        base->0
    } else {
        "info"@
    };
    if is_set(wire_bodies) {
        start + ",music_api::wire=debug"@
    } else {
        start
    }
}

/// The log filter that the environment asks for.
pub fn log_filter(wire_bodies: Option<String>, base: Option<String>) -> (filter: String)
    ensures
        filter@ == log_filter_view(text_of(wire_bodies), text_of(base)),
{
    let start = match required(base, "RUST_LOG") {
        Ok(v) => v,
        Err(_) => "info".to_owned(),
    };
    if set(&wire_bodies) {
        start.concat(",music_api::wire=debug")
    } else {
        start
    }
}

} // verus!
