use music_api::app::v1_mapper::{
    artists_joined, first_image_url, map_now, map_playlists, map_profile, map_recent,
    map_top_tracks, nothing_playing, total_in,
};
use music_api::json::{Json, Member};

fn obj(members: Vec<(&str, Json)>) -> Json {
    Json::Obj(
        members
            .into_iter()
            .map(|(key, value)| Member { key: key.to_string(), value })
            .collect(),
    )
}

fn s(text: &str) -> Json {
    Json::text(text)
}

fn n(count: u64) -> Json {
    Json::count(count)
}

fn images(url: &str) -> Json {
    Json::Arr(vec![obj(vec![("url", s(url))]), obj(vec![("url", s("second"))])])
}

fn track(name: &str) -> Json {
    obj(vec![
        ("name", s(name)),
        (
            "artists",
            Json::Arr(vec![
                obj(vec![("name", s("A"))]),
                obj(vec![("id", s("nameless"))]),
                obj(vec![("name", s("B"))]),
            ]),
        ),
        ("album", obj(vec![("name", s("Album")), ("images", images("cover"))])),
        ("duration_ms", n(200_000)),
    ])
}

#[test]
fn totals_default_to_zero() {
    assert_eq!(total_in(&obj(vec![("total", n(42))])), 42);
    assert_eq!(total_in(&obj(vec![("total", s("42"))])), 0);
    assert_eq!(total_in(&obj(vec![])), 0);
    assert_eq!(total_in(&Json::Null), 0);
}

#[test]
fn artists_are_joined_and_nameless_ones_skipped() {
    assert_eq!(artists_joined(&track("t")), "A, B");
    assert_eq!(artists_joined(&obj(vec![])), "");
    assert_eq!(artists_joined(&obj(vec![("artists", s("no array"))])), "");
}

#[test]
fn the_first_image_is_taken() {
    assert_eq!(first_image_url(&obj(vec![("images", images("first"))])), "first");
    assert_eq!(first_image_url(&obj(vec![("images", Json::Arr(vec![]))])), "");
    assert_eq!(first_image_url(&Json::Null), "");
}

#[test]
fn profile_payload() {
    let me = obj(vec![
        ("display_name", s("Someone")),
        ("id", s("someone")),
        ("images", images("avatar")),
        ("followers", obj(vec![("total", n(3))])),
        ("external_urls", obj(vec![("spotify", s("https://open"))])),
    ]);
    assert_eq!(
        map_profile(&me, 5, 7),
        obj(vec![
            ("display_name", s("Someone")),
            ("handle", s("someone")),
            ("avatar", s("avatar")),
            ("followers", n(3)),
            ("following", n(5)),
            ("playlists_count", n(7)),
            ("profile_url", s("https://open")),
        ])
    );
    assert_eq!(
        map_profile(&Json::Null, 0, 0),
        obj(vec![
            ("display_name", s("")),
            ("handle", s("")),
            ("avatar", s("")),
            ("followers", n(0)),
            ("following", n(0)),
            ("playlists_count", n(0)),
            ("profile_url", s("")),
        ])
    );
}

#[test]
fn now_payload() {
    let player = obj(vec![
        ("is_playing", Json::Bool(true)),
        ("progress_ms", n(1234)),
        ("device", obj(vec![("name", s("Phone"))])),
        ("item", track("Song")),
    ]);
    assert_eq!(
        map_now(&player),
        obj(vec![
            ("playing", Json::Bool(true)),
            ("track", s("Song")),
            ("artist", s("A, B")),
            ("album", s("Album")),
            ("cover", s("cover")),
            ("progress_ms", n(1234)),
            ("duration_ms", n(200_000)),
            ("device", s("Phone")),
        ])
    );
}

#[test]
fn nothing_plays_without_an_item() {
    let idle = obj(vec![("playing", Json::Bool(false))]);
    assert_eq!(nothing_playing(), idle);
    assert_eq!(map_now(&obj(vec![("item", Json::Null), ("is_playing", Json::Bool(true))])), idle);
    assert_eq!(map_now(&obj(vec![("is_playing", Json::Bool(true))])), idle);
    assert_eq!(map_now(&Json::Null), idle);
}

#[test]
fn recent_payload_keeps_order() {
    let raw = obj(vec![(
        "items",
        Json::Arr(vec![
            obj(vec![("played_at", s("t1")), ("track", track("One"))]),
            obj(vec![("played_at", s("t2"))]),
        ]),
    )]);
    let expected = |played_at, name, artist, album, cover, ms| {
        obj(vec![
            ("played_at", s(played_at)),
            ("track", s(name)),
            ("artist", s(artist)),
            ("album", s(album)),
            ("cover", s(cover)),
            ("duration_ms", n(ms)),
        ])
    };
    assert_eq!(
        map_recent(&raw),
        obj(vec![(
            "items",
            Json::Arr(vec![
                expected("t1", "One", "A, B", "Album", "cover", 200_000),
                expected("t2", "", "", "", "", 0),
            ])
        )])
    );
    assert_eq!(map_recent(&Json::Null), obj(vec![("items", Json::Arr(vec![]))]));
}

#[test]
fn top_tracks_are_ranked_from_one() {
    let raw = obj(vec![("items", Json::Arr(vec![track("One"), track("Two"), track("Three")]))]);
    let payload = map_top_tracks(&raw);
    assert_eq!(payload.get("range"), Some(&s("short_term")));
    let items = payload.get("items").unwrap().as_array().unwrap();
    assert_eq!(items.len(), 3);
    for (i, item) in items.iter().enumerate() {
        assert_eq!(item.get("rank").unwrap().as_u64(), Some(i as u64 + 1));
    }
    assert_eq!(
        items[1],
        obj(vec![
            ("rank", n(2)),
            ("track", s("Two")),
            ("artist", s("A, B")),
            ("album", s("Album")),
            ("cover", s("cover")),
            ("duration_ms", n(200_000)),
        ])
    );
}

#[test]
fn playlists_payload() {
    let raw = obj(vec![
        (
            "items",
            Json::Arr(vec![obj(vec![
                ("name", s("Mix")),
                ("owner", obj(vec![("display_name", s("Someone"))])),
                ("images", images("cover")),
                ("tracks", obj(vec![("total", n(12))])),
                ("external_urls", obj(vec![("spotify", s("https://open"))])),
            ])]),
        ),
        ("total", n(30)),
    ]);
    assert_eq!(
        map_playlists(&raw),
        obj(vec![
            (
                "items",
                Json::Arr(vec![obj(vec![
                    ("name", s("Mix")),
                    ("owner", s("Someone")),
                    ("cover", s("cover")),
                    ("tracks_count", n(12)),
                    ("url", s("https://open")),
                ])])
            ),
            ("total", n(30)),
        ])
    );
}

#[test]
fn a_payload_has_the_same_members_whatever_upstream_sends() {
    let keys = |j: &Json| match j {
        Json::Obj(members) => members.iter().map(|m| m.key.clone()).collect::<Vec<String>>(),
        _ => Vec::new(),
    };
    let odd = Json::Arr(vec![Json::Bool(true)]);
    let me = obj(vec![("id", n(3)), ("images", s("none"))]);
    assert_eq!(keys(&map_profile(&odd, 1, 2)), keys(&map_profile(&me, 3, 4)));
    assert_eq!(keys(&map_recent(&odd)), keys(&map_recent(&me)));
    assert_eq!(keys(&map_playlists(&odd)), keys(&map_playlists(&me)));
    assert_eq!(keys(&map_top_tracks(&odd)), keys(&map_top_tracks(&me)));
}
