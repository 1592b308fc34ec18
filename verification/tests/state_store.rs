use music_api::app::state_store::StateStore;
use music_api::time::Duration;

#[test]
fn issued_state_consumes_true_once_then_false() {
    let mut store = StateStore::new();
    let s = store.issue();
    assert!(store.consume(&s), "first consume of a live state is true");
    assert!(!store.consume(&s), "single-use: second consume is false");
}

#[test]
fn unknown_state_is_false() {
    assert!(!StateStore::new().consume("never-issued"));
}

#[test]
fn expired_state_is_rejected() {
    let mut store = StateStore::with_ttl(Duration::from_secs(0));
    let s = store.issue();
    assert!(!store.consume(&s), "a zero-TTL state is already expired");
}

#[test]
fn issued_states_are_unique() {
    let mut store = StateStore::new();
    assert_ne!(store.issue(), store.issue());
}

#[test]
fn issued_states_are_32_hex_digits() {
    let mut store = StateStore::default();
    let s = store.issue();
    assert_eq!(s.len(), 32);
    assert!(s.bytes().all(|b| b.is_ascii_digit() || (b'a'..=b'f').contains(&b)));
}

#[test]
fn a_state_is_live_until_its_ttl_has_passed() {
    let mut store = StateStore::with_ttl(Duration::from_secs(10));
    store.issue_at("a", 5);
    store.issue_at("b", 5);
    assert!(store.consume_at("a", 10_000_000_004));
    assert!(!store.consume_at("b", 10_000_000_005));
}

#[test]
fn an_expired_state_is_gone_once_consumed() {
    let mut store = StateStore::with_ttl(Duration::from_secs(10));
    store.issue_at("a", 0);
    assert!(!store.consume_at("a", 20_000_000_000));
    assert!(!store.consume_at("a", 1));
}

#[test]
fn consuming_one_state_leaves_the_others() {
    let mut store = StateStore::new();
    let a = store.issue();
    let b = store.issue();
    assert!(store.consume(&a));
    assert!(store.consume(&b));
}
