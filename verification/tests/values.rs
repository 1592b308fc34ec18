use music_api::app::activity::{ActivityTracker, Touch};
use music_api::app::cache::Cache;
use music_api::app::snapshots::{EndpointKind, Snapshots};
use music_api::json::{put, Json, JsonNumber, Member};
use music_api::text::{decimal_text, hex_text, join_text, str_eq, text_before};
use music_api::time::{clamp_millis, unix_millis, Duration, Timestamp, MAX_SECS, MIN_SECS};

#[test]
fn texts() {
    assert_eq!(decimal_text(0), "0");
    assert_eq!(decimal_text(1205), "1205");
    assert_eq!(decimal_text(u64::MAX), "18446744073709551615");
    assert_eq!(hex_text(&[0, 15, 16, 255]), "000f10ff");
    assert!(str_eq("a", "a"));
    assert!(!str_eq("a", "ab"));
    assert_eq!(text_before("/a?b?c", '?'), "/a");
    assert_eq!(text_before("/a", '?'), "/a");
    assert_eq!(text_before("?", '?'), "");
    let parts = vec!["a".to_string(), "b".to_string(), "c".to_string()];
    assert_eq!(join_text(&parts, ", "), "a, b, c");
    assert_eq!(join_text(&Vec::new(), ", "), "");
}

#[test]
fn json_objects_keep_one_value_per_key() {
    let mut m: Vec<Member> = Vec::new();
    put(&mut m, "a", Json::count(1));
    put(&mut m, "b", Json::text("x"));
    put(&mut m, "a", Json::Bool(true));
    let j = Json::Obj(m);
    assert_eq!(j.get("a"), Some(&Json::Bool(true)));
    assert_eq!(j.get("b").unwrap().as_str(), Some("x"));
    assert_eq!(j.get("c"), None);
    assert_eq!(j.copy(), j);
    assert_eq!(Json::Null.get("a"), None);
}

#[test]
fn json_reads_only_what_is_there() {
    assert_eq!(Json::Num(JsonNumber::PosInt(7)).as_u64(), Some(7));
    assert_eq!(Json::Num(JsonNumber::NegInt(-7)).as_u64(), None);
    assert_eq!(Json::Num(JsonNumber::Float(1.5f64.to_bits())).as_u64(), None);
    assert_eq!(Json::text("7").as_u64(), None);
    assert_eq!(Json::Bool(true).as_bool(), Some(true));
    assert_eq!(Json::Null.as_bool(), None);
    assert_eq!(Json::Arr(vec![Json::Null]).as_array().unwrap().len(), 1);
    assert!(Json::Null.as_array().is_none());
    assert!(Json::Null.is_null());
    assert!(!Json::Bool(false).is_null());
}

#[test]
fn durations() {
    assert_eq!(Duration::new(1, 500_000_000), Duration::from_millis(1500));
    assert_eq!(Duration::from_nanos(2_000_000_000), Duration::from_secs(2));
    assert_eq!(Duration::from_nanos(1_999_999).as_millis(), 1);
    assert_eq!(Duration::from_secs(2).as_nanos(), 2_000_000_000);
    assert!(Duration::from_secs(0).is_zero());
    assert!(!Duration::from_nanos(1).is_zero());
    assert_eq!(Duration::from_secs(2).min(Duration::from_secs(3)), Duration::from_secs(2));
    assert_eq!(Duration::from_secs(3).min(Duration::from_secs(2)), Duration::from_secs(2));
}

#[test]
fn the_calendar_has_the_range_of_chrono() {
    let first = chrono::DateTime::<chrono::Utc>::MIN_UTC;
    let last = chrono::DateTime::<chrono::Utc>::MAX_UTC;
    assert_eq!(MIN_SECS, first.timestamp());
    assert_eq!(MAX_SECS, last.timestamp());
    let end = Timestamp { secs: MAX_SECS, nanos: 999_999_999 };
    assert!(end.reaches(0));
    assert!(!end.reaches(1));
    assert!(!end.reaches(i64::MAX));
    let start = Timestamp { secs: MIN_SECS, nanos: 0 };
    assert!(!start.reaches(-1));
    assert_eq!(start.plus_seconds(MAX_SECS - MIN_SECS), Timestamp { secs: MAX_SECS, nanos: 0 });
}

#[test]
fn seconds_are_added_to_a_moment() {
    let t = Timestamp { secs: 1_700_000_000, nanos: 123 };
    assert_eq!(t.plus_seconds(3600), Timestamp { secs: 1_700_003_600, nanos: 123 });
    assert_eq!(t.plus_seconds(-1), Timestamp { secs: 1_699_999_999, nanos: 123 });
    let before_1970 = Timestamp { secs: -5, nanos: 7 };
    assert_eq!(before_1970.plus_seconds(3), Timestamp { secs: -2, nanos: 7 });
}

#[test]
fn the_present_is_after_2020() {
    let now = Timestamp::now();
    assert!(now.secs > 1_577_836_800);
    assert!(now.nanos < 1_000_000_000);
}

#[test]
fn clock_readings_are_clamped() {
    assert_eq!(unix_millis(None), 0);
    assert_eq!(unix_millis(Some(12)), 12);
    assert_eq!(unix_millis(Some(u128::MAX)), u64::MAX);
    assert_eq!(clamp_millis(u64::MAX as u128), u64::MAX);
    assert_eq!(clamp_millis(u64::MAX as u128 + 1), u64::MAX);
}

#[test]
fn a_new_tracker_is_idle() {
    let t = ActivityTracker::new(Duration::from_secs(60));
    assert!(!t.is_active());
    assert!(!t.is_active_at(0));
    assert!(!t.is_active_at(u64::MAX));
}

#[test]
fn a_touch_wakes_the_idle_and_only_them() {
    let mut t = ActivityTracker::new(Duration::from_millis(1000));
    assert_eq!(t.touch_at(5000), Touch { gap: 5000, wake: true });
    assert!(t.is_active_at(5000));
    assert!(t.is_active_at(6000));
    assert!(!t.is_active_at(6001));
    assert_eq!(t.touch_at(6000), Touch { gap: 1000, wake: false });
    assert_eq!(t.touch_at(7001), Touch { gap: 1001, wake: true });
    // A clock that went back counts as no gap.
    assert_eq!(t.touch_at(10), Touch { gap: 0, wake: false });
    assert!(t.is_active_at(5));
}

#[test]
fn a_touch_at_present_makes_the_tracker_active() {
    let mut t = ActivityTracker::new(Duration::from_secs(60));
    let found = t.touch();
    assert!(found.wake);
    assert!(found.gap > 1_577_836_800_000);
    assert!(t.is_active());
    assert!(!t.touch().wake);
}

#[test]
fn cached_values_live_for_their_ttl() {
    let mut c = Cache::new();
    c.put_at("k".to_string(), Json::count(1), Duration::from_secs(1), 10);
    assert_eq!(c.get_at("k", 10), Some(Json::count(1)));
    assert_eq!(c.get_at("k", 1_000_000_009), Some(Json::count(1)));
    assert_eq!(c.get_at("k", 1_000_000_010), None);
    assert_eq!(c.get_at("other", 10), None);
    c.put_at("k".to_string(), Json::count(2), Duration::from_secs(1), 1_000_000_010);
    assert_eq!(c.get_at("k", 1_000_000_011), Some(Json::count(2)));
}

#[test]
fn the_cache_reads_the_clock() {
    let mut c = Cache::default();
    c.put("long".to_string(), Json::count(1), Duration::from_secs(3600));
    c.put("gone".to_string(), Json::count(1), Duration::from_secs(0));
    assert_eq!(c.get("long"), Some(Json::count(1)));
    assert_eq!(c.get("gone"), None);
}

#[test]
fn each_endpoint_has_its_own_snapshot() {
    let kinds = [
        EndpointKind::Now,
        EndpointKind::Recent,
        EndpointKind::Top,
        EndpointKind::Profile,
        EndpointKind::Playlists,
    ];
    let mut s = Snapshots::new();
    for kind in kinds {
        assert_eq!(s.get(kind), None);
    }
    for (n, kind) in kinds.into_iter().enumerate() {
        s.set(kind, Some(Json::count(n as u64)));
    }
    for (n, kind) in kinds.into_iter().enumerate() {
        assert_eq!(s.get(kind), Some(Json::count(n as u64)));
    }
    s.set(EndpointKind::Top, None);
    assert_eq!(s.get(EndpointKind::Top), None);
    assert_eq!(s.get(EndpointKind::Now), Some(Json::count(0)));
}
