use music_api::config::{
    bind_addr, log_filter, Config, ConfigError, EnvValues, SchedulerConfig, SchedulerIntervals,
};
use music_api::time::Duration;

fn env(key: &str) -> Option<String> {
    let v = match key {
        "OWNER_SPOTIFY_USER_ID" => "owner-id",
        "AUTH_BASIC_PASSWORD" => "pw",
        "SPOTIFY_CLIENT_ID" => "cid",
        "SPOTIFY_CLIENT_SECRET" => "csecret",
        "SPOTIFY_REDIRECT_URI" => "https://example.com/cb",
        "DATABASE_URL" => "sqlite::memory:",
        _ => return None,
    };
    Some(v.to_string())
}

fn without(missing: &'static str) -> Result<Config, ConfigError> {
    Config::from_lookup(|key: &str| if key == missing { None } else { env(key) })
}

fn with(name: &'static str, value: &'static str) -> Result<Config, ConfigError> {
    Config::from_lookup(|key: &str| if key == name { Some(value.to_string()) } else { env(key) })
}

#[test]
fn settings_come_from_the_environment() {
    let c = Config::from_lookup(env).ok().unwrap();
    assert_eq!(c.owner_spotify_user_id, "owner-id");
    assert_eq!(c.auth_basic_username, "owner");
    assert_eq!(c.auth_basic_password, "pw");
    assert_eq!(c.spotify_client_id, "cid");
    assert_eq!(c.spotify_client_secret, "csecret");
    assert_eq!(c.spotify_redirect_uri, "https://example.com/cb");
    assert_eq!(c.database_url, "sqlite::memory:");
    assert!(!c.mock_data);
    assert_eq!(c.scheduler, SchedulerConfig::default());
    assert!(c == c.clone());
}

#[test]
fn each_required_variable_is_missed_by_name() {
    for key in [
        "OWNER_SPOTIFY_USER_ID",
        "AUTH_BASIC_PASSWORD",
        "SPOTIFY_CLIENT_ID",
        "SPOTIFY_CLIENT_SECRET",
        "SPOTIFY_REDIRECT_URI",
        "DATABASE_URL",
    ] {
        let e = without(key).err().unwrap();
        assert_eq!(e, ConfigError::Missing(key));
        assert_eq!(e.message(), format!("required env var {key} is unset or empty"));
        assert_eq!(with(key, "").err().unwrap(), ConfigError::Missing(key));
    }
}

#[test]
fn the_user_name_and_mock_mode_can_be_set() {
    let c = with("AUTH_BASIC_USERNAME", "someone").ok().unwrap();
    assert_eq!(c.auth_basic_username, "someone");
    assert_eq!(with("AUTH_BASIC_USERNAME", "").ok().unwrap().auth_basic_username, "owner");
    assert!(with("MOCK_DATA", "1").ok().unwrap().mock_data);
    assert!(!with("MOCK_DATA", "").ok().unwrap().mock_data);
}

#[test]
fn values_and_lookup_agree() {
    let values = EnvValues {
        owner_spotify_user_id: env("OWNER_SPOTIFY_USER_ID"),
        auth_basic_password: env("AUTH_BASIC_PASSWORD"),
        auth_basic_username: None,
        spotify_client_id: env("SPOTIFY_CLIENT_ID"),
        spotify_client_secret: env("SPOTIFY_CLIENT_SECRET"),
        spotify_redirect_uri: env("SPOTIFY_REDIRECT_URI"),
        database_url: env("DATABASE_URL"),
        mock_data: None,
    };
    assert!(Config::from_values(values) == Config::from_lookup(env));
}

#[test]
fn secrets_are_blotted_out() {
    let c = Config::from_lookup(env).ok().unwrap();
    let shown = c.redacted();
    assert_eq!(shown.auth_basic_password, "<redacted>");
    assert_eq!(shown.spotify_client_secret, "<redacted>");
    assert_eq!(shown.spotify_client_id, "cid");
    let other = with("AUTH_BASIC_PASSWORD", "another").ok().unwrap();
    assert!(shown == other.redacted());
}

#[test]
fn pacing_defaults() {
    let i = SchedulerIntervals::default();
    assert_eq!(i.now, Duration::from_secs(5));
    assert_eq!(i.recent, Duration::from_secs(300));
    assert_eq!(i.top, Duration::from_secs(300));
    assert_eq!(i.profile, Duration::from_secs(300));
    assert_eq!(i.playlists, Duration::from_secs(300));
    assert_eq!(SchedulerConfig::default().idle_threshold, Duration::from_secs(60));
}

#[test]
fn bind_address_and_log_filter() {
    assert_eq!(bind_addr(None), "0.0.0.0:8080");
    assert_eq!(bind_addr(Some("127.0.0.1:9".to_string())), "127.0.0.1:9");
    assert_eq!(bind_addr(Some(String::new())), "");
    let s = |v: &str| Some(v.to_string());
    assert_eq!(log_filter(None, None), "info");
    assert_eq!(log_filter(s(""), s("")), "info");
    assert_eq!(log_filter(s("1"), None), "info,music_api::wire=debug");
    assert_eq!(log_filter(None, s("warn")), "warn");
    assert_eq!(log_filter(s("1"), s("warn")), "warn,music_api::wire=debug");
}
