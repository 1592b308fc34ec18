//! What the environment comes to, variable by variable.

use vstd::prelude::*;

use crate::config::{
    self, bind_addr, log_filter, Config, ConfigError, EnvValues, SchedulerConfig,
};

verus! {

/// A variable that is unset, or set to the empty text.
pub open spec fn missing(value: Option<String>) -> bool {
    value is None || value->0@.len() == 0
}

/// The settings hold the values of their own variables. The user name is
/// `owner` where none is given, canned replies are served where their
/// variable is not empty, and the pacing is the same whatever the
/// environment says.
pub proof fn settings_hold_their_values(env: EnvValues, config: Config)
    requires
        call_ensures(Config::from_values, (env,), Ok::<Config, ConfigError>(config)),
    ensures
        env.owner_spotify_user_id matches Some(v) && config.owner_spotify_user_id@ == v@,
        env.auth_basic_password matches Some(v) && config.auth_basic_password@ == v@,
        env.spotify_client_id matches Some(v) && config.spotify_client_id@ == v@,
        env.spotify_client_secret matches Some(v) && config.spotify_client_secret@ == v@,
        env.spotify_redirect_uri matches Some(v) && config.spotify_redirect_uri@ == v@,
        env.database_url matches Some(v) && config.database_url@ == v@,
        missing(env.auth_basic_username) ==> config.auth_basic_username@ == "owner"@,
        !missing(env.auth_basic_username) ==> config.auth_basic_username@
            == env.auth_basic_username->0@,
        config.mock_data <==> !missing(env.mock_data),
        config.owner_spotify_user_id@.len() > 0,
        config.auth_basic_username@.len() > 0,
        config.auth_basic_password@.len() > 0,
        config.spotify_client_id@.len() > 0,
        config.spotify_client_secret@.len() > 0,
        config.spotify_redirect_uri@.len() > 0,
        config.database_url@.len() > 0,
        config.scheduler.intervals.now@ == 5 * 1_000_000_000,
        config.scheduler.intervals.recent@ == 300 * 1_000_000_000,
        config.scheduler.intervals.top@ == 300 * 1_000_000_000,
        config.scheduler.intervals.profile@ == 300 * 1_000_000_000,
        config.scheduler.intervals.playlists@ == 300 * 1_000_000_000,
        config.scheduler.idle_threshold@ == 60 * 1_000_000_000,
{
    reveal_strlit("owner");
    assert(config::outcome_view(Ok(config)) == config::settings_of(env@));
    let scheduler = config.scheduler;
    assert(config@.scheduler == scheduler@);
}

/// Without settings, the first required variable that is missing is named.
pub proof fn the_first_missing_is_named(env: EnvValues, e: ConfigError)
    requires
        call_ensures(Config::from_values, (env,), Err::<Config, ConfigError>(e)),
    ensures
        ({
            let ConfigError::Missing(name) = e;
            if missing(env.owner_spotify_user_id) {
                name@ == "OWNER_SPOTIFY_USER_ID"@
            } else if missing(env.auth_basic_password) {
                name@ == "AUTH_BASIC_PASSWORD"@
            } else if missing(env.spotify_client_id) {
                name@ == "SPOTIFY_CLIENT_ID"@
            } else if missing(env.spotify_client_secret) {
                name@ == "SPOTIFY_CLIENT_SECRET"@
            } else if missing(env.spotify_redirect_uri) {
                name@ == "SPOTIFY_REDIRECT_URI"@
            } else {
                name@ == "DATABASE_URL"@ && missing(env.database_url)
            }
        }),
{
    assert(config::outcome_view(Err(e)) == config::settings_of(env@));
}

/// There are settings exactly where no required variable is missing: the
/// user name and the switch to canned replies are optional.
pub proof fn settings_need_six_variables(env: EnvValues, outcome: Result<Config, ConfigError>)
    requires
        call_ensures(Config::from_values, (env,), outcome),
    ensures
        outcome is Ok <==> {
            &&& !missing(env.owner_spotify_user_id)
            &&& !missing(env.auth_basic_password)
            &&& !missing(env.spotify_client_id)
            &&& !missing(env.spotify_client_secret)
            &&& !missing(env.spotify_redirect_uri)
            &&& !missing(env.database_url)
        },
{
}

/// `get` may answer `key` with this value.
pub open spec fn may_give<F: Fn(&str) -> Option<String>>(
    get: F,
    key: &str,
    value: Seq<char>,
) -> bool {
    exists|answer: String|
        #[trigger] call_ensures(get, (key,), Some(answer)) && answer@ == value
}

/// `get` may leave `key` without a value.
pub open spec fn may_miss<F: Fn(&str) -> Option<String>>(get: F, key: &str) -> bool {
    exists|answer: Option<String>| #[trigger] call_ensures(get, (key,), answer) && missing(answer)
}

proof fn lemma_given<F: Fn(&str) -> Option<String>>(get: F, key: &str, value: Option<Seq<char>>)
    requires
        config::answers(get, key, value),
    ensures
        value is Some ==> may_give(get, key, value->0),
        value is None || value->0.len() == 0 ==> may_miss(get, key),
{
    let answer = choose|answer: Option<String>|
        #[trigger] call_ensures(get, (key,), answer) && config::text_of(answer) == value;
    assert(call_ensures(get, (key,), answer) && config::text_of(answer) == value);
    if answer is Some {
        assert(answer == Some(answer->0));
    }
}

/// Settings that are looked up come from the variables of their names.
pub proof fn settings_are_looked_up_by_name<F: Fn(&str) -> Option<String>>(get: F, config: Config)
    requires
        call_ensures(Config::from_lookup::<F>, (get,), Ok::<Config, ConfigError>(config)),
    ensures
        may_give(get, "OWNER_SPOTIFY_USER_ID", config.owner_spotify_user_id@),
        may_give(get, "AUTH_BASIC_PASSWORD", config.auth_basic_password@),
        may_give(get, "AUTH_BASIC_USERNAME", config.auth_basic_username@) || may_miss(
            get,
            "AUTH_BASIC_USERNAME",
        ) && config.auth_basic_username@ == "owner"@,
        may_give(get, "SPOTIFY_CLIENT_ID", config.spotify_client_id@),
        may_give(get, "SPOTIFY_CLIENT_SECRET", config.spotify_client_secret@),
        may_give(get, "SPOTIFY_REDIRECT_URI", config.spotify_redirect_uri@),
        may_give(get, "DATABASE_URL", config.database_url@),
        !config.mock_data ==> may_miss(get, "MOCK_DATA"),
        config.mock_data ==> exists|v: Seq<char>|
            v.len() > 0 && #[trigger] may_give(get, "MOCK_DATA", v),
{
    let env = choose|env: config::EnvView|
        #[trigger] config::answered(get, env) && config::outcome_view(Ok(config))
            == config::settings_of(env);
    assert(config::answered(get, env) && config::outcome_view(Ok(config)) == config::settings_of(
        env,
    ));
    lemma_given(get, "OWNER_SPOTIFY_USER_ID", env.owner_spotify_user_id);
    lemma_given(get, "AUTH_BASIC_PASSWORD", env.auth_basic_password);
    lemma_given(get, "AUTH_BASIC_USERNAME", env.auth_basic_username);
    lemma_given(get, "SPOTIFY_CLIENT_ID", env.spotify_client_id);
    lemma_given(get, "SPOTIFY_CLIENT_SECRET", env.spotify_client_secret);
    lemma_given(get, "SPOTIFY_REDIRECT_URI", env.spotify_redirect_uri);
    lemma_given(get, "DATABASE_URL", env.database_url);
    lemma_given(get, "MOCK_DATA", env.mock_data);
}

/// A lookup fails only over a variable that it found missing, and names it.
pub proof fn a_lookup_names_what_it_missed<F: Fn(&str) -> Option<String>>(get: F, e: ConfigError)
    requires
        call_ensures(Config::from_lookup::<F>, (get,), Err::<Config, ConfigError>(e)),
    ensures
        ({
            let ConfigError::Missing(name) = e;
            ||| name@ == "OWNER_SPOTIFY_USER_ID"@ && may_miss(get, "OWNER_SPOTIFY_USER_ID")
            ||| name@ == "AUTH_BASIC_PASSWORD"@ && may_miss(get, "AUTH_BASIC_PASSWORD")
            ||| name@ == "SPOTIFY_CLIENT_ID"@ && may_miss(get, "SPOTIFY_CLIENT_ID")
            ||| name@ == "SPOTIFY_CLIENT_SECRET"@ && may_miss(get, "SPOTIFY_CLIENT_SECRET")
            ||| name@ == "SPOTIFY_REDIRECT_URI"@ && may_miss(get, "SPOTIFY_REDIRECT_URI")
            ||| name@ == "DATABASE_URL"@ && may_miss(get, "DATABASE_URL")
        }),
{
    let outcome = Err::<Config, ConfigError>(e);
    let env = choose|env: config::EnvView|
        #[trigger] config::answered(get, env) && config::outcome_view(outcome)
            == config::settings_of(env);
    assert(config::answered(get, env) && config::outcome_view(outcome) == config::settings_of(env));
    if !config::is_set(env.owner_spotify_user_id) {
        lemma_given(get, "OWNER_SPOTIFY_USER_ID", env.owner_spotify_user_id);
    } else if !config::is_set(env.auth_basic_password) {
        lemma_given(get, "AUTH_BASIC_PASSWORD", env.auth_basic_password);
    } else if !config::is_set(env.spotify_client_id) {
        lemma_given(get, "SPOTIFY_CLIENT_ID", env.spotify_client_id);
    } else if !config::is_set(env.spotify_client_secret) {
        lemma_given(get, "SPOTIFY_CLIENT_SECRET", env.spotify_client_secret);
    } else if !config::is_set(env.spotify_redirect_uri) {
        lemma_given(get, "SPOTIFY_REDIRECT_URI", env.spotify_redirect_uri);
    } else {
        lemma_given(get, "DATABASE_URL", env.database_url);
    }
}

/// The message names the variable.
pub proof fn the_message_names_the_variable(e: &ConfigError, words: String)
    requires
        call_ensures(ConfigError::message, (e,), words),
    ensures
        ({
            let ConfigError::Missing(name) = *e;
            words@ == "required env var "@ + name@ + " is unset or empty"@
        }),
{
}

/// What is shown of settings blots out the password and the client secret,
/// and leaves the rest as it is.
pub proof fn two_secrets_are_blotted_out(config: &Config, shown: Config)
    requires
        call_ensures(Config::redacted, (config,), shown),
    ensures
        shown.auth_basic_password@ == "<redacted>"@,
        shown.spotify_client_secret@ == "<redacted>"@,
        shown.owner_spotify_user_id@ == config.owner_spotify_user_id@,
        shown.auth_basic_username@ == config.auth_basic_username@,
        shown.spotify_client_id@ == config.spotify_client_id@,
        shown.spotify_redirect_uri@ == config.spotify_redirect_uri@,
        shown.database_url@ == config.database_url@,
        shown.mock_data == config.mock_data,
        shown.scheduler@ == config.scheduler@,
{
    assert(shown@ == config::redacted_view(config@));
}

/// The address to listen on is the one that is given, or port 8080 of every
/// interface.
pub proof fn the_given_address_is_used(value: Option<String>, addr: String)
    requires
        call_ensures(bind_addr, (value,), addr),
    ensures
        value matches Some(v) ==> addr@ == v@,
        value is None ==> addr@ == "0.0.0.0:8080"@,
{
}

/// The log filter begins with the given one, or with `info`, and goes on to
/// let bodies through exactly where that is asked for.
pub proof fn bodies_are_logged_on_demand(
    wire_bodies: Option<String>,
    base: Option<String>,
    filter: String,
)
    requires
        call_ensures(log_filter, (wire_bodies, base), filter),
    ensures
        ({
            let start = if missing(base) {
                "info"@
            } else {
                base->0@
            };
            &&& missing(wire_bodies) ==> filter@ == start
            &&& !missing(wire_bodies) ==> filter@ == start + ",music_api::wire=debug"@
        }),
{
}

/// The pacing that is fixed in code: the player is looked at every five
/// seconds, everything else every five minutes, and a minute without
/// requests parks the schedulers.
pub proof fn the_default_pacing(pacing: SchedulerConfig)
    requires
        call_ensures(SchedulerConfig::default, (), pacing),
    ensures
        pacing.intervals.now@ == 5 * 1_000_000_000,
        pacing.intervals.recent@ == 300 * 1_000_000_000,
        pacing.intervals.top@ == 300 * 1_000_000_000,
        pacing.intervals.profile@ == 300 * 1_000_000_000,
        pacing.intervals.playlists@ == 300 * 1_000_000_000,
        pacing.idle_threshold@ == 60 * 1_000_000_000,
{
    assert(pacing@ == config::default_scheduler());
    let intervals = pacing.intervals;
    assert(pacing@.intervals == intervals@);
}

} // verus!
