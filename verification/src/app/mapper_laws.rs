//! What the payloads hold, member by member, in terms of what upstream sent.

use vstd::prelude::*;

use crate::app::v1_mapper::{
    self, artists_joined, first_image_url, map_now, map_playlists, map_profile, map_recent,
    map_top_tracks, nothing_playing, total_in,
};
use crate::json::{Json, JsonNumber, JsonView};
use crate::json_laws;
use crate::text;

verus! {

proof fn lemma_now_keys()
    ensures
        "playing"@ != "track"@,
        "playing"@ != "artist"@,
        "playing"@ != "album"@,
        "playing"@ != "cover"@,
        "playing"@ != "progress_ms"@,
        "playing"@ != "duration_ms"@,
        "playing"@ != "device"@,
        "playing"@ != "_mock"@,
        "track"@ != "artist"@,
        "track"@ != "album"@,
        "track"@ != "cover"@,
        "track"@ != "progress_ms"@,
        "track"@ != "duration_ms"@,
        "track"@ != "device"@,
        "track"@ != "_mock"@,
        "artist"@ != "album"@,
        "artist"@ != "cover"@,
        "artist"@ != "progress_ms"@,
        "artist"@ != "duration_ms"@,
        "artist"@ != "device"@,
        "artist"@ != "_mock"@,
        "album"@ != "cover"@,
        "album"@ != "progress_ms"@,
        "album"@ != "duration_ms"@,
        "album"@ != "device"@,
        "album"@ != "_mock"@,
        "cover"@ != "progress_ms"@,
        "cover"@ != "duration_ms"@,
        "cover"@ != "device"@,
        "cover"@ != "_mock"@,
        "progress_ms"@ != "duration_ms"@,
        "progress_ms"@ != "device"@,
        "progress_ms"@ != "_mock"@,
        "duration_ms"@ != "device"@,
        "duration_ms"@ != "_mock"@,
        "device"@ != "_mock"@,
{
    reveal_strlit("playing");
    reveal_strlit("track");
    reveal_strlit("artist");
    reveal_strlit("album");
    reveal_strlit("cover");
    reveal_strlit("progress_ms");
    reveal_strlit("duration_ms");
    reveal_strlit("device");
    reveal_strlit("_mock");
    assert("playing"@.len() != "track"@.len());
    assert("playing"@.len() != "artist"@.len());
    assert("playing"@.len() != "album"@.len());
    assert("playing"@.len() != "cover"@.len());
    assert("playing"@.len() != "progress_ms"@.len());
    assert("playing"@.len() != "duration_ms"@.len());
    assert("playing"@.len() != "device"@.len());
    assert("playing"@.len() != "_mock"@.len());
    assert("track"@.len() != "artist"@.len());
    assert("track"@[0] != "album"@[0]);
    assert("track"@[0] != "cover"@[0]);
    assert("track"@.len() != "progress_ms"@.len());
    assert("track"@.len() != "duration_ms"@.len());
    assert("track"@.len() != "device"@.len());
    assert("track"@[0] != "_mock"@[0]);
    assert("artist"@.len() != "album"@.len());
    assert("artist"@.len() != "cover"@.len());
    assert("artist"@.len() != "progress_ms"@.len());
    assert("artist"@.len() != "duration_ms"@.len());
    assert("artist"@[0] != "device"@[0]);
    assert("artist"@.len() != "_mock"@.len());
    assert("album"@[0] != "cover"@[0]);
    assert("album"@.len() != "progress_ms"@.len());
    assert("album"@.len() != "duration_ms"@.len());
    assert("album"@.len() != "device"@.len());
    assert("album"@[0] != "_mock"@[0]);
    assert("cover"@.len() != "progress_ms"@.len());
    assert("cover"@.len() != "duration_ms"@.len());
    assert("cover"@.len() != "device"@.len());
    assert("cover"@[0] != "_mock"@[0]);
    assert("progress_ms"@[0] != "duration_ms"@[0]);
    assert("progress_ms"@.len() != "device"@.len());
    assert("progress_ms"@.len() != "_mock"@.len());
    assert("duration_ms"@.len() != "device"@.len());
    assert("duration_ms"@.len() != "_mock"@.len());
    assert("device"@.len() != "_mock"@.len());
}

proof fn lemma_recent_keys()
    ensures
        "played_at"@ != "track"@,
        "played_at"@ != "artist"@,
        "played_at"@ != "album"@,
        "played_at"@ != "cover"@,
        "played_at"@ != "duration_ms"@,
        "track"@ != "artist"@,
        "track"@ != "album"@,
        "track"@ != "cover"@,
        "track"@ != "duration_ms"@,
        "artist"@ != "album"@,
        "artist"@ != "cover"@,
        "artist"@ != "duration_ms"@,
        "album"@ != "cover"@,
        "album"@ != "duration_ms"@,
        "cover"@ != "duration_ms"@,
{
    reveal_strlit("played_at");
    reveal_strlit("track");
    reveal_strlit("artist");
    reveal_strlit("album");
    reveal_strlit("cover");
    reveal_strlit("duration_ms");
    assert("played_at"@.len() != "track"@.len());
    assert("played_at"@.len() != "artist"@.len());
    assert("played_at"@.len() != "album"@.len());
    assert("played_at"@.len() != "cover"@.len());
    assert("played_at"@.len() != "duration_ms"@.len());
    assert("track"@.len() != "artist"@.len());
    assert("track"@[0] != "album"@[0]);
    assert("track"@[0] != "cover"@[0]);
    assert("track"@.len() != "duration_ms"@.len());
    assert("artist"@.len() != "album"@.len());
    assert("artist"@.len() != "cover"@.len());
    assert("artist"@.len() != "duration_ms"@.len());
    assert("album"@[0] != "cover"@[0]);
    assert("album"@.len() != "duration_ms"@.len());
    assert("cover"@.len() != "duration_ms"@.len());
}

proof fn lemma_top_keys()
    ensures
        "rank"@ != "track"@,
        "rank"@ != "artist"@,
        "rank"@ != "album"@,
        "rank"@ != "cover"@,
        "rank"@ != "duration_ms"@,
        "track"@ != "artist"@,
        "track"@ != "album"@,
        "track"@ != "cover"@,
        "track"@ != "duration_ms"@,
        "artist"@ != "album"@,
        "artist"@ != "cover"@,
        "artist"@ != "duration_ms"@,
        "album"@ != "cover"@,
        "album"@ != "duration_ms"@,
        "cover"@ != "duration_ms"@,
{
    reveal_strlit("rank");
    reveal_strlit("track");
    reveal_strlit("artist");
    reveal_strlit("album");
    reveal_strlit("cover");
    reveal_strlit("duration_ms");
    assert("rank"@.len() != "track"@.len());
    assert("rank"@.len() != "artist"@.len());
    assert("rank"@.len() != "album"@.len());
    assert("rank"@.len() != "cover"@.len());
    assert("rank"@.len() != "duration_ms"@.len());
    assert("track"@.len() != "artist"@.len());
    assert("track"@[0] != "album"@[0]);
    assert("track"@[0] != "cover"@[0]);
    assert("track"@.len() != "duration_ms"@.len());
    assert("artist"@.len() != "album"@.len());
    assert("artist"@.len() != "cover"@.len());
    assert("artist"@.len() != "duration_ms"@.len());
    assert("album"@[0] != "cover"@[0]);
    assert("album"@.len() != "duration_ms"@.len());
    assert("cover"@.len() != "duration_ms"@.len());
}

proof fn lemma_profile_keys()
    ensures
        "display_name"@ != "handle"@,
        "display_name"@ != "avatar"@,
        "display_name"@ != "followers"@,
        "display_name"@ != "following"@,
        "display_name"@ != "playlists_count"@,
        "display_name"@ != "profile_url"@,
        "display_name"@ != "_mock"@,
        "handle"@ != "avatar"@,
        "handle"@ != "followers"@,
        "handle"@ != "following"@,
        "handle"@ != "playlists_count"@,
        "handle"@ != "profile_url"@,
        "handle"@ != "_mock"@,
        "avatar"@ != "followers"@,
        "avatar"@ != "following"@,
        "avatar"@ != "playlists_count"@,
        "avatar"@ != "profile_url"@,
        "avatar"@ != "_mock"@,
        "followers"@ != "following"@,
        "followers"@ != "playlists_count"@,
        "followers"@ != "profile_url"@,
        "followers"@ != "_mock"@,
        "following"@ != "playlists_count"@,
        "following"@ != "profile_url"@,
        "following"@ != "_mock"@,
        "playlists_count"@ != "profile_url"@,
        "playlists_count"@ != "_mock"@,
        "profile_url"@ != "_mock"@,
{
    reveal_strlit("display_name");
    reveal_strlit("handle");
    reveal_strlit("avatar");
    reveal_strlit("followers");
    reveal_strlit("following");
    reveal_strlit("playlists_count");
    reveal_strlit("profile_url");
    reveal_strlit("_mock");
    assert("display_name"@.len() != "handle"@.len());
    assert("display_name"@.len() != "avatar"@.len());
    assert("display_name"@.len() != "followers"@.len());
    assert("display_name"@.len() != "following"@.len());
    assert("display_name"@.len() != "playlists_count"@.len());
    assert("display_name"@.len() != "profile_url"@.len());
    assert("display_name"@.len() != "_mock"@.len());
    assert("handle"@[0] != "avatar"@[0]);
    assert("handle"@.len() != "followers"@.len());
    assert("handle"@.len() != "following"@.len());
    assert("handle"@.len() != "playlists_count"@.len());
    assert("handle"@.len() != "profile_url"@.len());
    assert("handle"@.len() != "_mock"@.len());
    assert("avatar"@.len() != "followers"@.len());
    assert("avatar"@.len() != "following"@.len());
    assert("avatar"@.len() != "playlists_count"@.len());
    assert("avatar"@.len() != "profile_url"@.len());
    assert("avatar"@.len() != "_mock"@.len());
    assert("followers"@[6] != "following"@[6]);
    assert("followers"@.len() != "playlists_count"@.len());
    assert("followers"@.len() != "profile_url"@.len());
    assert("followers"@.len() != "_mock"@.len());
    assert("following"@.len() != "playlists_count"@.len());
    assert("following"@.len() != "profile_url"@.len());
    assert("following"@.len() != "_mock"@.len());
    assert("playlists_count"@.len() != "profile_url"@.len());
    assert("playlists_count"@.len() != "_mock"@.len());
    assert("profile_url"@.len() != "_mock"@.len());
}

proof fn lemma_playlist_keys()
    ensures
        "name"@ != "owner"@,
        "name"@ != "cover"@,
        "name"@ != "tracks_count"@,
        "name"@ != "url"@,
        "owner"@ != "cover"@,
        "owner"@ != "tracks_count"@,
        "owner"@ != "url"@,
        "cover"@ != "tracks_count"@,
        "cover"@ != "url"@,
        "tracks_count"@ != "url"@,
{
    reveal_strlit("name");
    reveal_strlit("owner");
    reveal_strlit("cover");
    reveal_strlit("tracks_count");
    reveal_strlit("url");
    assert("name"@.len() != "owner"@.len());
    assert("name"@.len() != "cover"@.len());
    assert("name"@.len() != "tracks_count"@.len());
    assert("name"@.len() != "url"@.len());
    assert("owner"@[0] != "cover"@[0]);
    assert("owner"@.len() != "tracks_count"@.len());
    assert("owner"@.len() != "url"@.len());
    assert("cover"@.len() != "tracks_count"@.len());
    assert("cover"@.len() != "url"@.len());
    assert("tracks_count"@.len() != "url"@.len());
}

proof fn lemma_list_keys()
    ensures
        "items"@ != "range"@,
        "items"@ != "total"@,
        "items"@ != "_mock"@,
        "range"@ != "total"@,
        "range"@ != "_mock"@,
        "total"@ != "_mock"@,
{
    reveal_strlit("items");
    reveal_strlit("range");
    reveal_strlit("total");
    reveal_strlit("_mock");
    assert("items"@[0] != "range"@[0]);
    assert("items"@[0] != "total"@[0]);
    assert("items"@[0] != "_mock"@[0]);
    assert("range"@[0] != "total"@[0]);
    assert("range"@[0] != "_mock"@[0]);
    assert("total"@[0] != "_mock"@[0]);
}

/// The mark is no member of a payload itself.
pub(crate) proof fn lemma_mock_key()
    ensures
        "_mock"@ != "playing"@,
        "_mock"@ != "track"@,
        "_mock"@ != "artist"@,
        "_mock"@ != "album"@,
        "_mock"@ != "cover"@,
        "_mock"@ != "progress_ms"@,
        "_mock"@ != "duration_ms"@,
        "_mock"@ != "device"@,
        "_mock"@ != "display_name"@,
        "_mock"@ != "handle"@,
        "_mock"@ != "avatar"@,
        "_mock"@ != "followers"@,
        "_mock"@ != "following"@,
        "_mock"@ != "playlists_count"@,
        "_mock"@ != "profile_url"@,
        "_mock"@ != "items"@,
        "_mock"@ != "range"@,
        "_mock"@ != "total"@,
{
    reveal_strlit("_mock");
    reveal_strlit("playing");
    assert("_mock"@[0] != "playing"@[0]);
    reveal_strlit("track");
    assert("_mock"@[0] != "track"@[0]);
    reveal_strlit("artist");
    assert("_mock"@[0] != "artist"@[0]);
    reveal_strlit("album");
    assert("_mock"@[0] != "album"@[0]);
    reveal_strlit("cover");
    assert("_mock"@[0] != "cover"@[0]);
    reveal_strlit("progress_ms");
    assert("_mock"@[0] != "progress_ms"@[0]);
    reveal_strlit("duration_ms");
    assert("_mock"@[0] != "duration_ms"@[0]);
    reveal_strlit("device");
    assert("_mock"@[0] != "device"@[0]);
    reveal_strlit("display_name");
    assert("_mock"@[0] != "display_name"@[0]);
    reveal_strlit("handle");
    assert("_mock"@[0] != "handle"@[0]);
    reveal_strlit("avatar");
    assert("_mock"@[0] != "avatar"@[0]);
    reveal_strlit("followers");
    assert("_mock"@[0] != "followers"@[0]);
    reveal_strlit("following");
    assert("_mock"@[0] != "following"@[0]);
    reveal_strlit("playlists_count");
    assert("_mock"@[0] != "playlists_count"@[0]);
    reveal_strlit("profile_url");
    assert("_mock"@[0] != "profile_url"@[0]);
    reveal_strlit("items");
    assert("_mock"@[0] != "items"@[0]);
    reveal_strlit("range");
    assert("_mock"@[0] != "range"@[0]);
    reveal_strlit("total");
    assert("_mock"@[0] != "total"@[0]);
}

/// A whole number in JSON.
pub open spec fn num(n: u64) -> JsonView {
    JsonView::Num(JsonNumber::PosInt(n))
}

/// The names that the artists have, in their order.
pub open spec fn names(artists: Seq<JsonView>) -> Seq<Seq<char>> {
    artists.filter(|a: JsonView| json_laws::at(a, "name"@) is Str).map_values(
        |a: JsonView| json_laws::text_at(a, "name"@),
    )
}

/// The address of the first image; empty where there is no image.
pub open spec fn first_image(container: JsonView) -> Seq<char> {
    let images = json_laws::items_at(container, "images"@);
    if images.len() > 0 {
        json_laws::text_at(images[0], "url"@)
    } else {
        Seq::empty()
    }
}

/// The entry shows this track: its name, its artists with commas between
/// them, its album with the first cover, and its length.
pub open spec fn shows_track(entry: JsonView, track: JsonView) -> bool {
    let album = json_laws::at(track, "album"@);
    &&& json_laws::at(entry, "track"@) == JsonView::Str(json_laws::text_at(track, "name"@))
    &&& json_laws::at(entry, "artist"@) == JsonView::Str(
        text::join(names(json_laws::items_at(track, "artists"@)), ", "@),
    )
    &&& json_laws::at(entry, "album"@) == JsonView::Str(json_laws::text_at(album, "name"@))
    &&& json_laws::at(entry, "cover"@) == JsonView::Str(first_image(album))
    &&& json_laws::at(entry, "duration_ms"@) == num(json_laws::count_at(track, "duration_ms"@))
}

/// The payload shows the player: nothing but that it does not play where it
/// has no item, otherwise the item, and whether it plays right now.
pub open spec fn shows_player(payload: JsonView, player: JsonView) -> bool {
    let item = json_laws::at(player, "item"@);
    if item == JsonView::Null {
        &&& json_laws::at(payload, "playing"@) == JsonView::Bool(false)
        &&& !json_laws::keys_of(payload).contains("track"@)
        &&& !json_laws::keys_of(payload).contains("artist"@)
        &&& !json_laws::keys_of(payload).contains("device"@)
    } else {
        &&& json_laws::at(payload, "playing"@) == JsonView::Bool(
            json_laws::at(player, "is_playing"@) == JsonView::Bool(true),
        )
        &&& json_laws::at(payload, "progress_ms"@) == num(
            json_laws::count_at(player, "progress_ms"@),
        )
        &&& json_laws::at(payload, "device"@) == JsonView::Str(
            json_laws::text_at(json_laws::at(player, "device"@), "name"@),
        )
        &&& shows_track(payload, item)
    }
}

/// The payload shows the profile, with these two counts.
pub open spec fn shows_profile(
    payload: JsonView,
    me: JsonView,
    following: u64,
    playlists: u64,
) -> bool {
    &&& json_laws::at(payload, "display_name"@) == JsonView::Str(
        json_laws::text_at(me, "display_name"@),
    )
    &&& json_laws::at(payload, "handle"@) == JsonView::Str(json_laws::text_at(me, "id"@))
    &&& json_laws::at(payload, "avatar"@) == JsonView::Str(first_image(me))
    &&& json_laws::at(payload, "followers"@) == num(
        json_laws::count_at(json_laws::at(me, "followers"@), "total"@),
    )
    &&& json_laws::at(payload, "following"@) == num(following)
    &&& json_laws::at(payload, "playlists_count"@) == num(playlists)
    &&& json_laws::at(payload, "profile_url"@) == JsonView::Str(
        json_laws::text_at(json_laws::at(me, "external_urls"@), "spotify"@),
    )
}

/// The payload shows what was played: one entry for each upstream item, in
/// their order, with its time and its track.
pub open spec fn shows_recent(payload: JsonView, raw: JsonView) -> bool {
    let upstream = json_laws::items_at(raw, "items"@);
    let shown = json_laws::items_at(payload, "items"@);
    &&& json_laws::at(payload, "items"@) is Arr
    &&& shown.len() == upstream.len()
    &&& forall|i: int|
        0 <= i < upstream.len() ==> {
            &&& json_laws::at(#[trigger] shown[i], "played_at"@) == JsonView::Str(
                json_laws::text_at(upstream[i], "played_at"@),
            )
            &&& shows_track(shown[i], json_laws::at(upstream[i], "track"@))
        }
}

/// The payload shows the top tracks: one entry for each upstream item, in
/// their order, the first with rank one, each next with one more.
pub open spec fn shows_top(payload: JsonView, raw: JsonView) -> bool {
    let upstream = json_laws::items_at(raw, "items"@);
    let shown = json_laws::items_at(payload, "items"@);
    &&& json_laws::at(payload, "range"@) == JsonView::Str("short_term"@)
    &&& json_laws::at(payload, "items"@) is Arr
    &&& shown.len() == upstream.len()
    &&& forall|i: int|
        0 <= i < upstream.len() ==> {
            &&& json_laws::at(#[trigger] shown[i], "rank"@) == num((i + 1) as u64)
            &&& shows_track(shown[i], upstream[i])
        }
}

/// The entry shows this playlist.
pub open spec fn shows_playlist(entry: JsonView, playlist: JsonView) -> bool {
    &&& json_laws::at(entry, "name"@) == JsonView::Str(json_laws::text_at(playlist, "name"@))
    &&& json_laws::at(entry, "owner"@) == JsonView::Str(
        json_laws::text_at(json_laws::at(playlist, "owner"@), "display_name"@),
    )
    &&& json_laws::at(entry, "cover"@) == JsonView::Str(first_image(playlist))
    &&& json_laws::at(entry, "tracks_count"@) == num(
        json_laws::count_at(json_laws::at(playlist, "tracks"@), "total"@),
    )
    &&& json_laws::at(entry, "url"@) == JsonView::Str(
        json_laws::text_at(json_laws::at(playlist, "external_urls"@), "spotify"@),
    )
}

/// The payload shows the playlists: one entry for each upstream item, in
/// their order, and how many there are in all.
pub open spec fn shows_playlists(payload: JsonView, raw: JsonView) -> bool {
    let upstream = json_laws::items_at(raw, "items"@);
    let shown = json_laws::items_at(payload, "items"@);
    &&& json_laws::at(payload, "total"@) == num(json_laws::count_at(raw, "total"@))
    &&& json_laws::at(payload, "items"@) is Arr
    &&& shown.len() == upstream.len()
    &&& forall|i: int|
        0 <= i < upstream.len() ==> shows_playlist(#[trigger] shown[i], upstream[i])
}

proof fn lemma_names(artists: Seq<JsonView>)
    ensures
        v1_mapper::artist_names(artists) == names(artists),
    decreases artists.len(),
{
    let named = |a: JsonView| json_laws::at(a, "name"@) is Str;
    let name = |a: JsonView| json_laws::text_at(a, "name"@);
    reveal(Seq::filter);
    if artists.len() > 0 {
        let front = artists.drop_last();
        lemma_names(front);
        if named(artists.last()) {
            assert(artists.filter(named) == front.filter(named).push(artists.last()));
            assert(names(artists) =~= names(front).push(name(artists.last())));
        } else {
            assert(artists.filter(named) == front.filter(named));
        }
    } else {
        assert(names(artists) =~= Seq::empty());
    }
}

pub(crate) proof fn lemma_now(player: JsonView)
    ensures
        shows_player(v1_mapper::now_payload(player), player),
        v1_mapper::now_payload(player) is Obj,
        !json_laws::keys_of(v1_mapper::now_payload(player)).contains("_mock"@),
{
    lemma_now_keys();
    lemma_names(json_laws::items_at(json_laws::at(player, "item"@), "artists"@));
}

proof fn lemma_recent_item(entry: JsonView)
    ensures
        json_laws::at(v1_mapper::recent_entry(entry), "played_at"@) == JsonView::Str(
            json_laws::text_at(entry, "played_at"@),
        ),
        shows_track(v1_mapper::recent_entry(entry), json_laws::at(entry, "track"@)),
{
    lemma_recent_keys();
    lemma_names(json_laws::items_at(json_laws::at(entry, "track"@), "artists"@));
}

pub(crate) proof fn lemma_recent(raw: JsonView)
    ensures
        shows_recent(v1_mapper::recent_payload(raw), raw),
        v1_mapper::recent_payload(raw) is Obj,
        !json_laws::keys_of(v1_mapper::recent_payload(raw)).contains("_mock"@),
{
    lemma_list_keys();
    let upstream = json_laws::items_at(raw, "items"@);
    let shown = json_laws::items_at(v1_mapper::recent_payload(raw), "items"@);
    assert forall|i: int| 0 <= i < upstream.len() implies {
        &&& json_laws::at(#[trigger] shown[i], "played_at"@) == JsonView::Str(
            json_laws::text_at(upstream[i], "played_at"@),
        )
        &&& shows_track(shown[i], json_laws::at(upstream[i], "track"@))
    } by {
        lemma_recent_item(upstream[i]);
        assert(shown[i] == v1_mapper::recent_entry(upstream[i]));
    }
}

proof fn lemma_top_item(rank: u64, track: JsonView)
    ensures
        json_laws::at(v1_mapper::top_entry(rank, track), "rank"@) == num(rank),
        shows_track(v1_mapper::top_entry(rank, track), track),
{
    lemma_top_keys();
    lemma_names(json_laws::items_at(track, "artists"@));
}

pub(crate) proof fn lemma_top(raw: JsonView)
    ensures
        shows_top(v1_mapper::top_payload(raw), raw),
        v1_mapper::top_payload(raw) is Obj,
        !json_laws::keys_of(v1_mapper::top_payload(raw)).contains("_mock"@),
{
    lemma_list_keys();
    let upstream = json_laws::items_at(raw, "items"@);
    let shown = json_laws::items_at(v1_mapper::top_payload(raw), "items"@);
    assert forall|i: int| 0 <= i < upstream.len() implies {
        &&& json_laws::at(#[trigger] shown[i], "rank"@) == num((i + 1) as u64)
        &&& shows_track(shown[i], upstream[i])
    } by {
        lemma_top_item((i + 1) as u64, upstream[i]);
        assert(shown[i] == v1_mapper::top_entry((i + 1) as u64, upstream[i]));
    }
}

proof fn lemma_playlist_item(playlist: JsonView)
    ensures
        shows_playlist(v1_mapper::playlist_entry(playlist), playlist),
{
    lemma_playlist_keys();
}

pub(crate) proof fn lemma_playlists(raw: JsonView)
    ensures
        shows_playlists(v1_mapper::playlists_payload(raw), raw),
        v1_mapper::playlists_payload(raw) is Obj,
        !json_laws::keys_of(v1_mapper::playlists_payload(raw)).contains("_mock"@),
{
    lemma_list_keys();
    let upstream = json_laws::items_at(raw, "items"@);
    let shown = json_laws::items_at(v1_mapper::playlists_payload(raw), "items"@);
    assert forall|i: int| 0 <= i < upstream.len() implies shows_playlist(
        #[trigger] shown[i],
        upstream[i],
    ) by {
        lemma_playlist_item(upstream[i]);
        assert(shown[i] == v1_mapper::playlist_entry(upstream[i]));
    }
}

pub(crate) proof fn lemma_profile(me: JsonView, following: u64, playlists: u64)
    ensures
        shows_profile(
            v1_mapper::profile_payload(me, following, playlists),
            me,
            following,
            playlists,
        ),
        v1_mapper::profile_payload(me, following, playlists) is Obj,
        !json_laws::keys_of(v1_mapper::profile_payload(me, following, playlists)).contains(
            "_mock"@,
        ),
{
    lemma_profile_keys();
}

/// The payload of `/v1/now` shows the player state it was made from.
pub proof fn now_shows_the_player(player: &Json, payload: Json)
    requires
        call_ensures(map_now, (player,), payload),
    ensures
        shows_player(payload@, player@),
{
    lemma_now(player@);
}

/// A player that plays and one that is paused never give the same payload,
/// whatever else they have in common.
pub proof fn paused_is_not_playing(playing: &Json, paused: &Json, a: Json, b: Json)
    requires
        call_ensures(map_now, (playing,), a),
        call_ensures(map_now, (paused,), b),
        json_laws::at(playing@, "item"@) != JsonView::Null,
        json_laws::at(playing@, "is_playing"@) == JsonView::Bool(true),
        json_laws::at(paused@, "is_playing"@) == JsonView::Bool(false),
    ensures
        json_laws::at(a@, "playing"@) == JsonView::Bool(true),
        json_laws::at(b@, "playing"@) == JsonView::Bool(false),
        a@ != b@,
{
    lemma_now(playing@);
    lemma_now(paused@);
}

/// The payload while nothing plays says so, and nothing else.
pub proof fn idle_says_only_that(payload: Json)
    requires
        call_ensures(nothing_playing, (), payload),
    ensures
        json_laws::at(payload@, "playing"@) == JsonView::Bool(false),
        json_laws::keys_of(payload@) =~= set!["playing"@],
{
}

/// The payload of `/v1/profile` shows the profile and the counts it was
/// made from.
pub proof fn profile_shows_the_owner(me: &Json, following: u64, playlists: u64, payload: Json)
    requires
        call_ensures(map_profile, (me, following, playlists), payload),
    ensures
        shows_profile(payload@, me@, following, playlists),
{
    lemma_profile(me@, following, playlists);
}

/// The payload of `/v1/recent` shows what was played.
pub proof fn recent_shows_what_was_played(raw: &Json, payload: Json)
    requires
        call_ensures(map_recent, (raw,), payload),
    ensures
        shows_recent(payload@, raw@),
{
    lemma_recent(raw@);
}

/// The payload of `/v1/top/tracks` shows the top tracks.
pub proof fn top_shows_the_ranking(raw: &Json, payload: Json)
    requires
        call_ensures(map_top_tracks, (raw,), payload),
    ensures
        shows_top(payload@, raw@),
{
    lemma_top(raw@);
}

/// The payload of `/v1/playlists` shows the playlists.
pub proof fn playlists_shows_the_playlists(raw: &Json, payload: Json)
    requires
        call_ensures(map_playlists, (raw,), payload),
    ensures
        shows_playlists(payload@, raw@),
{
    lemma_playlists(raw@);
}

/// A total is the number under `total`, an artist line the artists' names
/// with commas in between, a cover the first image.
pub proof fn parts_are_read_as_they_stand(
    v: &Json,
    total: u64,
    line: String,
    cover: String,
)
    requires
        call_ensures(total_in, (v,), total),
        call_ensures(artists_joined, (v,), line),
        call_ensures(first_image_url, (v,), cover),
    ensures
        total == json_laws::count_at(v@, "total"@),
        line@ == text::join(names(json_laws::items_at(v@, "artists"@)), ", "@),
        cover@ == first_image(v@),
{
    lemma_names(json_laws::items_at(v@, "artists"@));
}

/// Nothing of what upstream sent gets into a payload beyond the members
/// that it is meant to have.
pub proof fn payloads_hold_nothing_else(
    raw: &Json,
    n: u64,
    m: u64,
    now: Json,
    profile: Json,
    recent: Json,
    top: Json,
    playlists: Json,
)
    requires
        call_ensures(map_now, (raw,), now),
        call_ensures(map_profile, (raw, n, m), profile),
        call_ensures(map_recent, (raw,), recent),
        call_ensures(map_top_tracks, (raw,), top),
        call_ensures(map_playlists, (raw,), playlists),
    ensures
        json_laws::keys_of(now@) =~= if json_laws::at(raw@, "item"@) == JsonView::Null {
            set!["playing"@]
        } else {
            set![
                "playing"@,
                "track"@,
                "artist"@,
                "album"@,
                "cover"@,
                "progress_ms"@,
                "duration_ms"@,
                "device"@,
            ]
        },
        json_laws::keys_of(profile@) =~= set![
            "display_name"@,
            "handle"@,
            "avatar"@,
            "followers"@,
            "following"@,
            "playlists_count"@,
            "profile_url"@,
        ],
        json_laws::keys_of(recent@) =~= set!["items"@],
        json_laws::keys_of(top@) =~= set!["range"@, "items"@],
        json_laws::keys_of(playlists@) =~= set!["items"@, "total"@],
        forall|i: int|
            0 <= i < json_laws::items_at(recent@, "items"@).len() ==> json_laws::keys_of(
                #[trigger] json_laws::items_at(recent@, "items"@)[i],
            ) =~= set!["played_at"@, "track"@, "artist"@, "album"@, "cover"@, "duration_ms"@],
        forall|i: int|
            0 <= i < json_laws::items_at(top@, "items"@).len() ==> json_laws::keys_of(
                #[trigger] json_laws::items_at(top@, "items"@)[i],
            ) =~= set!["rank"@, "track"@, "artist"@, "album"@, "cover"@, "duration_ms"@],
        forall|i: int|
            0 <= i < json_laws::items_at(playlists@, "items"@).len() ==> json_laws::keys_of(
                #[trigger] json_laws::items_at(playlists@, "items"@)[i],
            ) =~= set!["name"@, "owner"@, "cover"@, "tracks_count"@, "url"@],
{
    lemma_list_keys();
    let upstream = json_laws::items_at(raw@, "items"@);
    assert forall|i: int| 0 <= i < json_laws::items_at(recent@, "items"@).len() implies
        json_laws::keys_of(#[trigger] json_laws::items_at(recent@, "items"@)[i]) =~= set![
        "played_at"@,
        "track"@,
        "artist"@,
        "album"@,
        "cover"@,
        "duration_ms"@,
    ] by {
        assert(json_laws::items_at(recent@, "items"@)[i] == v1_mapper::recent_entry(upstream[i]));
    }
    assert forall|i: int| 0 <= i < json_laws::items_at(top@, "items"@).len() implies
        json_laws::keys_of(#[trigger] json_laws::items_at(top@, "items"@)[i]) =~= set![
        "rank"@,
        "track"@,
        "artist"@,
        "album"@,
        "cover"@,
        "duration_ms"@,
    ] by {
        assert(json_laws::items_at(top@, "items"@)[i] == v1_mapper::top_entry(
            (i + 1) as u64,
            upstream[i],
        ));
    }
    assert forall|i: int| 0 <= i < json_laws::items_at(playlists@, "items"@).len() implies
        json_laws::keys_of(#[trigger] json_laws::items_at(playlists@, "items"@)[i]) =~= set![
        "name"@,
        "owner"@,
        "cover"@,
        "tracks_count"@,
        "url"@,
    ] by {
        assert(json_laws::items_at(playlists@, "items"@)[i] == v1_mapper::playlist_entry(
            upstream[i],
        ));
    }
}

} // verus!
