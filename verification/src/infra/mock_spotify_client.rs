//! Canned upstream replies for local development, chosen by path.

use vstd::prelude::*;
use vstd::string::*;

use crate::domain::spotify::{SpotifyError, SpotifyErrorView};
use crate::json::Json;
use crate::text::{self, str_eq, text_before};

verus! {

/// A canned reply.
#[derive(Debug, Clone, Copy, PartialEq, Eq, Structural)]
pub enum Fixture {
    Me,
    MeFollowing,
    MePlaylists,
    MePlayer,
    MePlayerRecent,
    MeTopTracks,
}

/// The canned reply for a path without its query.
pub open spec fn fixture_of(bare: Seq<char>) -> Option<Fixture> {
    if bare == "/v1/me"@ {
        Some(Fixture::Me)
    } else if bare == "/v1/me/following"@ {
        Some(Fixture::MeFollowing)
    } else if bare == "/v1/me/playlists"@ {
        Some(Fixture::MePlaylists)
    } else if bare == "/v1/me/player"@ {
        Some(Fixture::MePlayer)
    } else if bare == "/v1/me/player/recently-played"@ {
        Some(Fixture::MePlayerRecent)
    } else if bare == "/v1/me/top/tracks"@ {
        Some(Fixture::MeTopTracks)
    } else {
        None
    }
}

/// A path without its query.
pub open spec fn bare_path(path: Seq<char>) -> Seq<char> {
    text::before(path, '?')
}

#[derive(Debug)]
pub struct MockSpotifyClient;

impl MockSpotifyClient {
    pub fn new() -> (client: MockSpotifyClient)
        ensures
            client == MockSpotifyClient,
    {
        MockSpotifyClient
    }

    /// The canned reply for a path. The query does not matter. A path that
    /// has none fails as an unknown path does upstream, with a 404.
    pub fn route(&self, path: &str) -> (reply: Result<Fixture, SpotifyError>)
        ensures
            match fixture_of(bare_path(path@)) {
                Some(fixture) => reply == Ok::<Fixture, SpotifyError>(fixture),
                None => reply == Err::<Fixture, SpotifyError>(SpotifyError::Status(404)),
            },
    {
        let bare = text_before(path, '?');
        if str_eq(bare, "/v1/me") {
            Ok(Fixture::Me)
        } else if str_eq(bare, "/v1/me/following") {
            Ok(Fixture::MeFollowing)
        } else if str_eq(bare, "/v1/me/playlists") {
            Ok(Fixture::MePlaylists)
        } else if str_eq(bare, "/v1/me/player") {
            Ok(Fixture::MePlayer)
        } else if str_eq(bare, "/v1/me/player/recently-played") {
            Ok(Fixture::MePlayerRecent)
        } else if str_eq(bare, "/v1/me/top/tracks") {
            Ok(Fixture::MeTopTracks)
        } else {
            Err(SpotifyError::Status(404))
        }
    }
}

impl Default for MockSpotifyClient {
    fn default() -> (client: MockSpotifyClient)
        ensures
            client == MockSpotifyClient,
    {
        MockSpotifyClient::new()
    }
}

/// The reply that a canned text makes, parsed or not.
pub fn canned_reply(parsed: Result<Json, String>) -> (reply: Result<Option<Json>, SpotifyError>)
    ensures
        crate::app::spotify_service::called_view(reply) == match parsed {
            Ok(j) => Ok(Some(j@)),
            Err(why) => Err(SpotifyErrorView::Decode("mock fixture parse: "@ + why@)),
        },
{
    match parsed {
        Ok(j) => Ok(Some(j)),
        Err(why) => Err(
            SpotifyError::Decode("mock fixture parse: ".to_owned().concat(why.as_str())),
        ),
    }
}

/// A query never changes which reply a path gets.
pub proof fn query_does_not_matter(path: Seq<char>, query: Seq<char>)
    ensures
        bare_path(path + seq!['?'] + query) == bare_path(path),
    decreases path.len(),
{
    let full = path + seq!['?'] + query;
    if path.len() == 0 {
        assert(full[0] == '?');
    } else if path[0] != '?' {
        query_does_not_matter(path.skip(1), query);
        assert(full.skip(1) =~= path.skip(1) + seq!['?'] + query);
        assert(full[0] == path[0]);
    } else {
        assert(full[0] == '?');
    }
}

} // verus!
