use music_api::domain::auth_state::AuthState;
use music_api::domain::spotify_toggle::SpotifyToggle;

#[test]
fn starts_enabled() {
    assert!(SpotifyToggle::new().is_enabled());
}

#[test]
fn disable_then_enable_round_trips() {
    let mut t = SpotifyToggle::new();
    t.disable();
    assert!(!t.is_enabled());
    t.enable();
    assert!(t.is_enabled());
}

#[test]
fn disable_is_idempotent() {
    let mut t = SpotifyToggle::new();
    t.disable();
    t.disable();
    assert!(!t.is_enabled());
}

#[test]
fn the_toggle_defaults_to_enabled() {
    assert!(SpotifyToggle::default().is_enabled());
}

#[test]
fn reauth_flag_is_raised_and_cleared() {
    let mut a = AuthState::new();
    assert!(!a.needs_reauth());
    a.set_needs_reauth();
    a.set_needs_reauth();
    assert!(a.needs_reauth());
    a.clear();
    assert!(!a.needs_reauth());
    assert!(!AuthState::default().needs_reauth());
}
