//! Mapping from raw upstream JSON to the payloads of the `/v1/*` endpoints.
//! The scheduler and the cold-start path of the handlers share it, so that
//! both serve one shape.

use vstd::prelude::*;

use crate::json::{self, push_item, put, Json, JsonNumber, JsonView, Member};
use crate::text::{self, join_text};

verus! {

impl JsonView {
    /// The value under `key`; null where there is none.
    pub open spec fn field(self, key: Seq<char>) -> JsonView {
        match self.get(key) {
            Some(v) => v,
            None => JsonView::Null,
        }
    }

    /// The string; the empty string where this is none.
    pub open spec fn text(self) -> Seq<char> {
        match self.as_str() {
            Some(s) => s,
            None => Seq::empty(),
        }
    }

    /// The non-negative integer; zero where this is none.
    pub open spec fn count(self) -> u64 {
        match self.as_u64() {
            Some(n) => n,
            None => 0,
        }
    }

    /// The items of the array; none where this is no array.
    pub open spec fn items(self) -> Seq<JsonView> {
        match self.as_array() {
            Some(items) => items,
            None => Seq::empty(),
        }
    }
}

/// A count as a JSON number.
pub open spec fn number(n: u64) -> JsonView {
    JsonView::Num(JsonNumber::PosInt(n))
}

/// The names among the artists, in order, without the artists that have no
/// name.
pub open spec fn artist_names(artists: Seq<JsonView>) -> Seq<Seq<char>>
    decreases artists.len(),
{
    if artists.len() == 0 {
        Seq::empty()
    } else {
        match artists.last().field("name"@).as_str() {
            Some(name) => artist_names(artists.drop_last()).push(name),
            None => artist_names(artists.drop_last()),
        }
    }
}

/// The artists of a track as one text: `A, B, C`.
pub open spec fn artist_line(track: JsonView) -> Seq<char> {
    text::join(artist_names(track.field("artists"@).items()), ", "@)
}

/// The address of the first image; empty where there is none.
pub open spec fn cover_url(container: JsonView) -> Seq<char> {
    let images = container.field("images"@).items();
    if images.len() == 0 {
        Seq::empty()
    } else {
        images[0].field("url"@).text()
    }
}

/// The payload of `/v1/profile`.
pub open spec fn profile_payload(
    me: JsonView,
    following: u64,
    playlists_count: u64,
) -> JsonView {
    JsonView::Obj(
        map![
            "display_name"@ => JsonView::Str(me.field("display_name"@).text()),
            "handle"@ => JsonView::Str(me.field("id"@).text()),
            "avatar"@ => JsonView::Str(cover_url(me)),
            "followers"@ => number(me.field("followers"@).field("total"@).count()),
            "following"@ => number(following),
            "playlists_count"@ => number(playlists_count),
            "profile_url"@ => JsonView::Str(me.field("external_urls"@).field("spotify"@).text()),
        ],
    )
}

/// The payload of `/v1/now` while nothing plays.
pub open spec fn idle_payload() -> JsonView {
    JsonView::Obj(map!["playing"@ => JsonView::Bool(false)])
}

/// The payload of `/v1/now` for the player state `p`.
pub open spec fn now_payload(p: JsonView) -> JsonView {
    let item = p.field("item"@);
    if item == JsonView::Null {
        idle_payload()
    } else {
        JsonView::Obj(
            map![
                "playing"@ => JsonView::Bool(p.field("is_playing"@) == JsonView::Bool(true)),
                "track"@ => JsonView::Str(item.field("name"@).text()),
                "artist"@ => JsonView::Str(artist_line(item)),
                "album"@ => JsonView::Str(item.field("album"@).field("name"@).text()),
                "cover"@ => JsonView::Str(cover_url(item.field("album"@))),
                "progress_ms"@ => number(p.field("progress_ms"@).count()),
                "duration_ms"@ => number(item.field("duration_ms"@).count()),
                "device"@ => JsonView::Str(p.field("device"@).field("name"@).text()),
            ],
        )
    }
}

/// One entry of `/v1/recent`.
pub open spec fn recent_entry(entry: JsonView) -> JsonView {
    let track = entry.field("track"@);
    JsonView::Obj(
        map![
            "played_at"@ => JsonView::Str(entry.field("played_at"@).text()),
            "track"@ => JsonView::Str(track.field("name"@).text()),
            "artist"@ => JsonView::Str(artist_line(track)),
            "album"@ => JsonView::Str(track.field("album"@).field("name"@).text()),
            "cover"@ => JsonView::Str(cover_url(track.field("album"@))),
            "duration_ms"@ => number(track.field("duration_ms"@).count()),
        ],
    )
}

/// The payload of `/v1/recent`: one entry per upstream item, in order.
pub open spec fn recent_payload(raw: JsonView) -> JsonView {
    JsonView::Obj(
        map![
            "items"@ => JsonView::Arr(
                raw.field("items"@).items().map_values(|e: JsonView| recent_entry(e)),
            ),
        ],
    )
}

/// One entry of `/v1/top/tracks`.
pub open spec fn top_entry(rank: u64, track: JsonView) -> JsonView {
    JsonView::Obj(
        map![
            "rank"@ => number(rank),
            "track"@ => JsonView::Str(track.field("name"@).text()),
            "artist"@ => JsonView::Str(artist_line(track)),
            "album"@ => JsonView::Str(track.field("album"@).field("name"@).text()),
            "cover"@ => JsonView::Str(cover_url(track.field("album"@))),
            "duration_ms"@ => number(track.field("duration_ms"@).count()),
        ],
    )
}

/// The payload of `/v1/top/tracks`: one entry per upstream item, in order,
/// ranked from one.
pub open spec fn top_payload(raw: JsonView) -> JsonView {
    JsonView::Obj(
        map![
            "range"@ => JsonView::Str("short_term"@),
            "items"@ => JsonView::Arr(
                raw.field("items"@).items().map(|i: int, t: JsonView| top_entry((i + 1) as u64, t)),
            ),
        ],
    )
}

/// One entry of `/v1/playlists`.
pub open spec fn playlist_entry(p: JsonView) -> JsonView {
    JsonView::Obj(
        map![
            "name"@ => JsonView::Str(p.field("name"@).text()),
            "owner"@ => JsonView::Str(p.field("owner"@).field("display_name"@).text()),
            "cover"@ => JsonView::Str(cover_url(p)),
            "tracks_count"@ => number(p.field("tracks"@).field("total"@).count()),
            "url"@ => JsonView::Str(p.field("external_urls"@).field("spotify"@).text()),
        ],
    )
}

/// The payload of `/v1/playlists`: one entry per upstream item, in order.
pub open spec fn playlists_payload(raw: JsonView) -> JsonView {
    JsonView::Obj(
        map![
            "items"@ => JsonView::Arr(
                raw.field("items"@).items().map_values(|p: JsonView| playlist_entry(p)),
            ),
            "total"@ => number(raw.field("total"@).count()),
        ],
    )
}

/// A value that may be missing; a missing one counts as null.
spec fn or_null(v: Option<&Json>) -> JsonView {
    match v {
        Some(j) => j@,
        None => JsonView::Null,
    }
}

fn field<'a>(v: Option<&'a Json>, key: &str) -> (found: Option<&'a Json>)
    ensures
        or_null(found) == or_null(v).field(key@),
{
    match v {
        Some(j) => j.get(key),
        None => None,
    }
}

fn text_of(v: Option<&Json>) -> (s: String)
    ensures
        s@ == or_null(v).text(),
{
    match v {
        Some(j) => match j.as_str() {
            Some(s) => s.to_owned(),
            None => String::new(),
        },
        None => String::new(),
    }
}

fn count_of(v: Option<&Json>) -> (n: u64)
    ensures
        n == or_null(v).count(),
{
    match v {
        Some(j) => match j.as_u64() {
            Some(n) => n,
            None => 0,
        },
        None => 0,
    }
}

fn artists_of(track: Option<&Json>) -> (line: String)
    ensures
        line@ == artist_line(or_null(track)),
{
    let mut names: Vec<String> = Vec::new();
    if let Some(list) = field(track, "artists") {
        if let Some(artists) = list.as_array() {
            proof {
                json::lemma_items_view(artists@);
            }
            let mut i: usize = 0;
            while i < artists.len()
                invariant
                    i <= artists@.len(),
                    text::texts(names@) =~= artist_names(json::items_view(artists@).take(i as int)),
                    json::items_view(artists@).len() == artists@.len(),
                decreases artists@.len() - i,
            {
                proof {
                    json::lemma_items_view(artists@);
                    let longer = json::items_view(artists@).take(i + 1);
                    assert(longer.drop_last() =~= json::items_view(artists@).take(i as int));
                    assert(longer.last() == artists@[i as int]@);
                }
                if let Some(name) = field(Some(&artists[i]), "name") {
                    if let Some(s) = name.as_str() {
                        names.push(s.to_owned());
                    }
                }
                i += 1;
            }
            assert(json::items_view(artists@).take(i as int) =~= json::items_view(artists@));
        }
    }
    join_text(&names, ", ")
}

fn cover_of(container: Option<&Json>) -> (url: String)
    ensures
        url@ == cover_url(or_null(container)),
{
    if let Some(list) = field(container, "images") {
        if let Some(images) = list.as_array() {
            proof {
                json::lemma_items_view(images@);
            }
            if images.len() > 0 {
                return text_of(field(Some(&images[0]), "url"));
            }
        }
    }
    String::new()
}

/// The `total` of a paginated reply; zero where it has none.
pub fn total_in(v: &Json) -> (total: u64)
    ensures
        total == v@.field("total"@).count(),
{
    count_of(field(Some(v), "total"))
}

/// The names of a track's artists, joined by `, `.
pub fn artists_joined(track_obj: &Json) -> (line: String)
    ensures
        line@ == artist_line(track_obj@),
{
    artists_of(Some(track_obj))
}

/// The address of the first image of an album, a playlist or a profile.
pub fn first_image_url(container: &Json) -> (url: String)
    ensures
        url@ == cover_url(container@),
{
    cover_of(Some(container))
}

/// Map the owner's profile.
pub fn map_profile(me: &Json, following: u64, playlists_count: u64) -> (payload: Json)
    ensures
        payload@ == profile_payload(me@, following, playlists_count),
{
    let v: Option<&Json> = Some(me);
    let mut m: Vec<Member> = Vec::new();
    put(&mut m, "display_name", Json::Str(text_of(field(v, "display_name"))));
    put(&mut m, "handle", Json::Str(text_of(field(v, "id"))));
    put(&mut m, "avatar", Json::Str(cover_of(v)));
    put(&mut m, "followers", Json::count(count_of(field(field(v, "followers"), "total"))));
    put(&mut m, "following", Json::count(following));
    put(&mut m, "playlists_count", Json::count(playlists_count));
    put(&mut m, "profile_url", Json::Str(text_of(field(field(v, "external_urls"), "spotify"))));
    Json::Obj(m)
}

/// The payload while nothing plays.
pub fn nothing_playing() -> (payload: Json)
    ensures
        payload@ == idle_payload(),
{
    let mut m: Vec<Member> = Vec::new();
    put(&mut m, "playing", Json::Bool(false));
    Json::Obj(m)
}

/// Map the player state.
pub fn map_now(p: &Json) -> (payload: Json)
    ensures
        payload@ == now_payload(p@),
{
    let v: Option<&Json> = Some(p);
    let item = match field(v, "item") {
        Some(i) => if i.is_null() {
            return nothing_playing();
        } else {
            Some(i)
        },
        None => return nothing_playing(),
    };
    let playing = match field(v, "is_playing") {
        Some(b) => match b.as_bool() {
            Some(b) => b,
            None => false,
        },
        None => false,
    };
    let mut m: Vec<Member> = Vec::new();
    put(&mut m, "playing", Json::Bool(playing));
    put(&mut m, "track", Json::Str(text_of(field(item, "name"))));
    put(&mut m, "artist", Json::Str(artists_of(item)));
    put(&mut m, "album", Json::Str(text_of(field(field(item, "album"), "name"))));
    put(&mut m, "cover", Json::Str(cover_of(field(item, "album"))));
    put(&mut m, "progress_ms", Json::count(count_of(field(v, "progress_ms"))));
    put(&mut m, "duration_ms", Json::count(count_of(field(item, "duration_ms"))));
    put(&mut m, "device", Json::Str(text_of(field(field(v, "device"), "name"))));
    Json::Obj(m)
}

fn map_recent_item(entry: &Json) -> (mapped: Json)
    ensures
        mapped@ == recent_entry(entry@),
{
    let track = field(Some(entry), "track");
    let mut m: Vec<Member> = Vec::new();
    put(&mut m, "played_at", Json::Str(text_of(field(Some(entry), "played_at"))));
    put(&mut m, "track", Json::Str(text_of(field(track, "name"))));
    put(&mut m, "artist", Json::Str(artists_of(track)));
    put(&mut m, "album", Json::Str(text_of(field(field(track, "album"), "name"))));
    put(&mut m, "cover", Json::Str(cover_of(field(track, "album"))));
    put(&mut m, "duration_ms", Json::count(count_of(field(track, "duration_ms"))));
    Json::Obj(m)
}

/// Map the recently played tracks.
pub fn map_recent(raw: &Json) -> (payload: Json)
    ensures
        payload@ == recent_payload(raw@),
{
    let ghost entry = |e: JsonView| recent_entry(e);
    let ghost upstream = raw@.field("items"@).items();
    let mut out: Vec<Json> = Vec::new();
    if let Some(list) = field(Some(raw), "items") {
        if let Some(items) = list.as_array() {
            proof {
                json::lemma_items_view(items@);
            }
            let mut i: usize = 0;
            while i < items.len()
                invariant
                    i <= items@.len(),
                    upstream == json::items_view(items@),
                    upstream.len() == items@.len(),
                    forall|k: int| 0 <= k < items@.len() ==> upstream[k] == #[trigger] items@[k]@,
                    entry == (|e: JsonView| recent_entry(e)),
                    json::items_view(out@) =~= upstream.take(i as int).map_values(entry),
                decreases items@.len() - i,
            {
                push_item(&mut out, map_recent_item(&items[i]));
                i += 1;
            }
        }
    }
    assert(json::items_view(out@) =~= upstream.map_values(entry));
    let mut m: Vec<Member> = Vec::new();
    put(&mut m, "items", Json::Arr(out));
    Json::Obj(m)
}

fn map_top_track(rank: u64, t: &Json) -> (mapped: Json)
    ensures
        mapped@ == top_entry(rank, t@),
{
    let track: Option<&Json> = Some(t);
    let mut m: Vec<Member> = Vec::new();
    put(&mut m, "rank", Json::count(rank));
    put(&mut m, "track", Json::Str(text_of(field(track, "name"))));
    put(&mut m, "artist", Json::Str(artists_of(track)));
    put(&mut m, "album", Json::Str(text_of(field(field(track, "album"), "name"))));
    put(&mut m, "cover", Json::Str(cover_of(field(track, "album"))));
    put(&mut m, "duration_ms", Json::count(count_of(field(track, "duration_ms"))));
    Json::Obj(m)
}

/// Map the top tracks, ranked from one.
pub fn map_top_tracks(raw: &Json) -> (payload: Json)
    ensures
        payload@ == top_payload(raw@),
{
    let ghost entry = |i: int, t: JsonView| top_entry((i + 1) as u64, t);
    let ghost upstream = raw@.field("items"@).items();
    let mut out: Vec<Json> = Vec::new();
    if let Some(list) = field(Some(raw), "items") {
        if let Some(items) = list.as_array() {
            proof {
                json::lemma_items_view(items@);
            }
            let mut i: usize = 0;
            while i < items.len()
                invariant
                    i <= items@.len(),
                    upstream == json::items_view(items@),
                    upstream.len() == items@.len(),
                    forall|k: int| 0 <= k < items@.len() ==> upstream[k] == #[trigger] items@[k]@,
                    entry == (|i: int, t: JsonView| top_entry((i + 1) as u64, t)),
                    json::items_view(out@) =~= upstream.take(i as int).map(entry),
                decreases items@.len() - i,
            {
                push_item(&mut out, map_top_track(i as u64 + 1, &items[i]));
                i += 1;
            }
        }
    }
    assert(json::items_view(out@) =~= upstream.map(entry));
    let mut m: Vec<Member> = Vec::new();
    put(&mut m, "range", Json::text("short_term"));
    put(&mut m, "items", Json::Arr(out));
    Json::Obj(m)
}

fn map_playlist_item(p: &Json) -> (mapped: Json)
    ensures
        mapped@ == playlist_entry(p@),
{
    let v: Option<&Json> = Some(p);
    let mut m: Vec<Member> = Vec::new();
    put(&mut m, "name", Json::Str(text_of(field(v, "name"))));
    put(&mut m, "owner", Json::Str(text_of(field(field(v, "owner"), "display_name"))));
    put(&mut m, "cover", Json::Str(cover_of(v)));
    put(&mut m, "tracks_count", Json::count(count_of(field(field(v, "tracks"), "total"))));
    put(&mut m, "url", Json::Str(text_of(field(field(v, "external_urls"), "spotify"))));
    Json::Obj(m)
}

/// Map the owner's playlists.
pub fn map_playlists(raw: &Json) -> (payload: Json)
    ensures
        payload@ == playlists_payload(raw@),
{
    let ghost entry = |p: JsonView| playlist_entry(p);
    let ghost upstream = raw@.field("items"@).items();
    let mut out: Vec<Json> = Vec::new();
    if let Some(list) = field(Some(raw), "items") {
        if let Some(items) = list.as_array() {
            proof {
                json::lemma_items_view(items@);
            }
            let mut i: usize = 0;
            while i < items.len()
                invariant
                    i <= items@.len(),
                    upstream == json::items_view(items@),
                    upstream.len() == items@.len(),
                    forall|k: int| 0 <= k < items@.len() ==> upstream[k] == #[trigger] items@[k]@,
                    entry == (|p: JsonView| playlist_entry(p)),
                    json::items_view(out@) =~= upstream.take(i as int).map_values(entry),
                decreases items@.len() - i,
            {
                push_item(&mut out, map_playlist_item(&items[i]));
                i += 1;
            }
        }
    }
    assert(json::items_view(out@) =~= upstream.map_values(entry));
    let mut m: Vec<Member> = Vec::new();
    put(&mut m, "items", Json::Arr(out));
    put(&mut m, "total", Json::count(total_in(raw)));
    Json::Obj(m)
}

/// The list payloads have one entry per upstream item, in the order of
/// those.
pub proof fn one_entry_per_item(raw: JsonView, i: int)
    requires
        0 <= i < raw.field("items"@).items().len(),
    ensures
        ({
            let upstream = raw.field("items"@).items();
            let recent = recent_payload(raw).field("items"@).items();
            let top = top_payload(raw).field("items"@).items();
            let playlists = playlists_payload(raw).field("items"@).items();
            &&& recent.len() == upstream.len() && recent[i] == recent_entry(upstream[i])
            &&& top.len() == upstream.len() && top[i] == top_entry((i + 1) as u64, upstream[i])
            &&& playlists.len() == upstream.len() && playlists[i] == playlist_entry(upstream[i])
        }),
{
    reveal_strlit("items");
    reveal_strlit("total");
    assert("items"@[0] != "total"@[0]);
}

/// The top tracks are ranked one, two, three and so on.
pub proof fn ranks_count_from_one(raw: JsonView, i: int)
    requires
        0 <= i < raw.field("items"@).items().len() <= u64::MAX,
    ensures
        top_payload(raw).field("items"@).items()[i].field("rank"@).count() == i + 1,
{
    one_entry_per_item(raw, i);
    reveal_strlit("rank");
    reveal_strlit("track");
    reveal_strlit("artist");
    reveal_strlit("album");
    reveal_strlit("cover");
    reveal_strlit("duration_ms");
    assert("rank"@[0] != "track"@[0]);
    assert("rank"@[0] != "artist"@[0]);
    assert("rank"@[0] != "album"@[0]);
    assert("rank"@[0] != "cover"@[0]);
    assert("rank"@[0] != "duration_ms"@[0]);
}

/// The members of an object; none where this is no object.
pub open spec fn members_of(v: JsonView) -> Set<Seq<char>> {
    match v {
        JsonView::Obj(members) => members.dom(),
        _ => Set::empty(),
    }
}

/// Whatever upstream sends, a payload and its entries have the same members.
/// Only the payload of the player differs, by whether it holds a track.
pub proof fn shapes_are_fixed(a: JsonView, b: JsonView, n: u64, m: u64, k: u64, l: u64)
    ensures
        members_of(profile_payload(a, n, m)) == members_of(profile_payload(b, k, l)),
        a.field("item"@) != JsonView::Null && b.field("item"@) != JsonView::Null ==> members_of(
            now_payload(a),
        ) == members_of(now_payload(b)),
        members_of(recent_entry(a)) == members_of(recent_entry(b)),
        members_of(recent_payload(a)) == members_of(recent_payload(b)),
        members_of(top_entry(n, a)) == members_of(top_entry(m, b)),
        members_of(top_payload(a)) == members_of(top_payload(b)),
        members_of(playlist_entry(a)) == members_of(playlist_entry(b)),
        members_of(playlists_payload(a)) == members_of(playlists_payload(b)),
{
}

} // verus!
