//! What the clients make of a response, what they send, and what they log
//! of a token.

use vstd::prelude::*;
use vstd::utf8::*;

use crate::domain::oauth_client::{RefreshedTokens, TokenExchangeError};
use crate::domain::spotify::SpotifyError;
use crate::infra::mock_spotify_client::{canned_reply, Fixture, MockSpotifyClient};
use crate::infra::spotify_client::{
    body_preview, read_status, reply_outcome, request_url, Reading, RequestQuota,
};
use crate::infra::token_exchanger::{
    self, code_form, grant_type, mask_optional, mask_token, read_token_status, refresh_form,
    refusal, token_outcome, TokenBody, TokenReading,
};
use crate::json::{Json, JsonView};
use crate::json_laws;
use crate::text;

verus! {

/// A response with status 204 is a reply without content, any other 2xx one
/// with a body to read, anything else a failure with that status.
pub proof fn a_status_is_read(status: u16, reading: Reading)
    requires
        call_ensures(read_status, (status,), reading),
    ensures
        reading is NoContent <==> status == 204,
        reading is Body <==> 200 <= status <= 299 && status != 204,
        reading matches Reading::Failed(e) ==> e == SpotifyError::Status(status),
{
}

/// A request that got a reply succeeds with it, one without content with
/// none; a body that is no JSON, a bad status and a lost connection each
/// fail in their own way.
pub proof fn a_request_comes_to_its_reply(
    sent: Result<u16, String>,
    body: Option<Result<Json, String>>,
    outcome: Result<Option<Json>, SpotifyError>,
)
    requires
        body is Some <==> (sent matches Ok(status) && 200 <= status <= 299 && status != 204),
        call_ensures(reply_outcome, (sent, body), outcome),
    ensures
        match (sent, body) {
            (Err(why), _) => outcome matches Err(SpotifyError::Transport(s)) && s@ == why@,
            (Ok(_), Some(Ok(j))) => outcome matches Ok(Some(reply)) && reply@ == j@,
            (Ok(_), Some(Err(why))) => outcome matches Err(SpotifyError::Decode(s)) && s@ == why@,
            (Ok(status), None) => if status == 204 {
                outcome matches Ok(None)
            } else {
                outcome matches Err(SpotifyError::Status(n)) && n == status
            },
        },
{
}

/// The address is the base followed by the path; a preview is the start of
/// the body, 256 characters at most; and the pace is thirty at once, one
/// more each second.
pub proof fn addresses_previews_and_pace(
    base: &str,
    path: &str,
    url: String,
    body: &str,
    preview: String,
    quota: RequestQuota,
)
    requires
        call_ensures(request_url, (base, path), url),
        call_ensures(body_preview, (body,), preview),
        call_ensures(RequestQuota::production, (), quota),
    ensures
        url@.len() == base@.len() + path@.len(),
        url@.take(base@.len() as int) == base@,
        url@.skip(base@.len() as int) == path@,
        preview@.len() == if body@.len() < 256 {
            body@.len()
        } else {
            256
        },
        preview@ == body@.take(preview@.len() as int),
        quota.burst == 30,
        quota.period@ == 1_000_000_000,
{
    assert(url@.take(base@.len() as int) =~= base@);
    assert(url@.skip(base@.len() as int) =~= path@);
    assert(body@.take(body@.len() as int) =~= body@);
}

/// The form of each grant names the grant first, and hands over what the
/// grant rests on.
pub proof fn forms_hand_over_the_grant(
    refresh_token: &str,
    code: &str,
    redirect_uri: &str,
    refresh: Vec<(String, String)>,
    exchange: Vec<(String, String)>,
)
    requires
        call_ensures(refresh_form, (refresh_token,), refresh),
        call_ensures(code_form, (code, redirect_uri), exchange),
    ensures
        refresh@.len() == 2,
        refresh@[0].0@ == "grant_type"@ && refresh@[0].1@ == "refresh_token"@,
        refresh@[1].0@ == "refresh_token"@ && refresh@[1].1@ == refresh_token@,
        exchange@.len() == 3,
        exchange@[0].0@ == "grant_type"@ && exchange@[0].1@ == "authorization_code"@,
        exchange@[1].0@ == "code"@ && exchange@[1].1@ == code@,
        exchange@[2].0@ == "redirect_uri"@ && exchange@[2].1@ == redirect_uri@,
{
    let r = token_exchanger::form_view(refresh@);
    let e = token_exchanger::form_view(exchange@);
    assert(r.len() == 2 && r.len() == refresh@.len());
    assert(e.len() == 3 && e.len() == exchange@.len());
    assert(r[0] == (refresh@[0].0@, refresh@[0].1@));
    assert(r[1] == (refresh@[1].0@, refresh@[1].1@));
    assert(e[0] == (exchange@[0].0@, exchange@[0].1@));
    assert(e[1] == (exchange@[1].0@, exchange@[1].1@));
    assert(e[2] == (exchange@[2].0@, exchange@[2].1@));
}

proof fn lemma_first_field(form: Seq<(Seq<char>, Seq<char>)>, name: Seq<char>, i: int)
    requires
        0 <= i < form.len(),
        form[i].0 == name,
        forall|k: int| 0 <= k < i ==> (#[trigger] form[k]).0 != name,
    ensures
        token_exchanger::field_value(form, name) == form[i].1,
    decreases form.len(),
{
    if i > 0 {
        let rest = form.skip(1);
        assert(form[0].0 != name);
        assert forall|k: int| 0 <= k < i - 1 implies (#[trigger] rest[k]).0 != name by {
            assert(rest[k] == form[k + 1]);
        }
        lemma_first_field(rest, name, i - 1);
    }
}

/// The grant that a form asks for is the value of its first field of that
/// name.
pub proof fn the_grant_is_the_first_of_its_name(
    form: &Vec<(String, String)>,
    i: int,
    grant: String,
)
    requires
        0 <= i < form@.len(),
        form@[i].0@ == "grant_type"@,
        forall|k: int| 0 <= k < i ==> (#[trigger] form@[k]).0@ != "grant_type"@,
        call_ensures(grant_type, (form,), grant),
    ensures
        grant@ == form@[i].1@,
{
    let f = token_exchanger::form_view(form@);
    assert(f[i] == (form@[i].0@, form@[i].1@));
    assert forall|k: int| 0 <= k < i implies (#[trigger] f[k]).0 != "grant_type"@ by {
        assert(f[k] == (form@[k].0@, form@[k].1@));
    }
    lemma_first_field(f, "grant_type"@, i);
}

/// A token response brings tokens with any 2xx and a refusal with 400;
/// anything else is a failure with that status.
pub proof fn a_token_status_is_read(status: u16, reading: TokenReading)
    requires
        call_ensures(read_token_status, (status,), reading),
    ensures
        reading is Tokens <==> 200 <= status <= 299,
        reading is Refusal <==> status == 400,
        reading matches TokenReading::Failed(e) ==> e == TokenExchangeError::Status(status),
{
}

/// A refusal is final exactly where its error is the text `invalid_grant`.
pub proof fn only_an_invalid_grant_is_final(body: &Json, e: TokenExchangeError)
    requires
        call_ensures(refusal, (body,), e),
    ensures
        e is InvalidGrant <==> json_laws::at(body@, "error"@) == JsonView::Str("invalid_grant"@),
        !(e is InvalidGrant) ==> e == TokenExchangeError::Status(400),
{
}

/// An exchange comes to the tokens that the response brought, and fails in
/// its own way otherwise.
pub proof fn an_exchange_comes_to_its_tokens(
    sent: Result<u16, String>,
    body: TokenBody,
    outcome: Result<RefreshedTokens, TokenExchangeError>,
)
    requires
        token_exchanger::body_fits(sent, body),
        call_ensures(token_outcome, (sent, body), outcome),
    ensures
        sent matches Err(why) ==> (outcome matches Err(TokenExchangeError::Transport(s)) && s@
            == why@),
        outcome is Ok <==> sent is Ok && (body matches TokenBody::Tokens(Ok(_))),
        body matches TokenBody::Tokens(Ok(tokens)) ==> outcome is Ok && ({
            let t = outcome->Ok_0;
            &&& t.access_token@ == tokens.access_token@
            &&& t.expires_in == tokens.expires_in
            &&& t.refresh_token is Some <==> tokens.refresh_token is Some
            &&& tokens.refresh_token matches Some(r) ==> t.refresh_token->0@ == r@
            &&& t.scope is Some <==> tokens.scope is Some
            &&& tokens.scope matches Some(s) ==> t.scope->0@ == s@
        }),
        body matches TokenBody::Tokens(Err(why)) ==> (outcome matches Err(
            TokenExchangeError::Decode(s),
        ) && s@ == why@),
        body matches TokenBody::Refusal(Err(why)) ==> (outcome matches Err(
            TokenExchangeError::Decode(s),
        ) && s@ == why@),
        body matches TokenBody::Refusal(Ok(j)) ==> ((outcome matches Err(
            TokenExchangeError::InvalidGrant,
        )) <==> json_laws::at(j@, "error"@) == JsonView::Str("invalid_grant"@)),
        sent matches Ok(status) && body is Unread ==> (outcome matches Err(
            TokenExchangeError::Status(n),
        ) && n == sent->Ok_0),
{
}

/// What is logged of an ASCII token: three stars where it is short,
/// otherwise its first six characters and how many it has.
pub proof fn a_mask_shows_the_start_and_the_length(token: &str, shown: String)
    requires
        is_ascii_chars(token@),
        call_ensures(mask_token, (token,), shown),
    ensures
        token@.len() <= 8 ==> shown@ == "***"@,
        token@.len() > 8 ==> shown@ == token@.take(6) + "…(len="@ + text::decimal(token@.len())
            + ")"@,
{
    is_ascii_chars_encode_utf8(token@);
    if token@.len() > 8 {
        let head = token@.take(6);
        assert(is_ascii_chars(head)) by {
            assert forall|i: int| 0 <= i < head.len() implies '\0' <= #[trigger] head[i]
                <= '\u{7f}' by {
                assert(head[i] == token@[i]);
            }
        }
        is_ascii_chars_encode_utf8(head);
        assert(encode_utf8(head) =~= encode_utf8(token@).take(6)) by {
            assert forall|i: int| 0 <= i < 6 implies encode_utf8(head)[i] == encode_utf8(
                token@,
            ).take(6)[i] by {
                assert(head[i] == token@[i]);
                assert(encode_utf8(head)[i] == head[i] as u8);
                assert(encode_utf8(token@)[i] == token@[i] as u8);
            }
        }
        encode_utf8_decode_utf8(head);
    }
}

/// A token that may be missing is masked like any other, or said to be
/// absent.
pub proof fn a_missing_token_is_said_to_be(token: &Option<String>, shown: String)
    requires
        call_ensures(mask_optional, (token,), shown),
    ensures
        token is None ==> shown@ == "<absent>"@,
        token matches Some(t) ==> shown@ == token_exchanger::masked(t@),
{
}

proof fn lemma_paths_differ()
    ensures
        "/v1/me"@ != "/v1/me/following"@,
        "/v1/me"@ != "/v1/me/playlists"@,
        "/v1/me"@ != "/v1/me/player"@,
        "/v1/me"@ != "/v1/me/player/recently-played"@,
        "/v1/me"@ != "/v1/me/top/tracks"@,
        "/v1/me/following"@ != "/v1/me/playlists"@,
        "/v1/me/following"@ != "/v1/me/player"@,
        "/v1/me/following"@ != "/v1/me/player/recently-played"@,
        "/v1/me/following"@ != "/v1/me/top/tracks"@,
        "/v1/me/playlists"@ != "/v1/me/player"@,
        "/v1/me/playlists"@ != "/v1/me/player/recently-played"@,
        "/v1/me/playlists"@ != "/v1/me/top/tracks"@,
        "/v1/me/player"@ != "/v1/me/player/recently-played"@,
        "/v1/me/player"@ != "/v1/me/top/tracks"@,
        "/v1/me/player/recently-played"@ != "/v1/me/top/tracks"@,
{
    reveal_strlit("/v1/me");
    reveal_strlit("/v1/me/following");
    reveal_strlit("/v1/me/playlists");
    reveal_strlit("/v1/me/player");
    reveal_strlit("/v1/me/player/recently-played");
    reveal_strlit("/v1/me/top/tracks");
    assert("/v1/me"@.len() != "/v1/me/following"@.len());
    assert("/v1/me"@.len() != "/v1/me/playlists"@.len());
    assert("/v1/me"@.len() != "/v1/me/player"@.len());
    assert("/v1/me"@.len() != "/v1/me/player/recently-played"@.len());
    assert("/v1/me"@.len() != "/v1/me/top/tracks"@.len());
    assert("/v1/me/following"@[7] != "/v1/me/playlists"@[7]);
    assert("/v1/me/following"@.len() != "/v1/me/player"@.len());
    assert("/v1/me/following"@.len() != "/v1/me/player/recently-played"@.len());
    assert("/v1/me/following"@.len() != "/v1/me/top/tracks"@.len());
    assert("/v1/me/playlists"@.len() != "/v1/me/player"@.len());
    assert("/v1/me/playlists"@.len() != "/v1/me/player/recently-played"@.len());
    assert("/v1/me/playlists"@.len() != "/v1/me/top/tracks"@.len());
    assert("/v1/me/player"@.len() != "/v1/me/player/recently-played"@.len());
    assert("/v1/me/player"@.len() != "/v1/me/top/tracks"@.len());
    assert("/v1/me/player/recently-played"@.len() != "/v1/me/top/tracks"@.len());
}

/// Each known path, with or without a query, gets its own canned reply; any
/// other gets a 404.
pub proof fn each_path_gets_its_own_reply(
    client: &MockSpotifyClient,
    path: &str,
    reply: Result<Fixture, SpotifyError>,
)
    requires
        call_ensures(MockSpotifyClient::route, (client, path), reply),
    ensures
        ({
            let bare = text::before(path@, '?');
            &&& (reply matches Ok(Fixture::Me)) <==> bare == "/v1/me"@
            &&& (reply matches Ok(Fixture::MeFollowing)) <==> bare == "/v1/me/following"@
            &&& (reply matches Ok(Fixture::MePlaylists)) <==> bare == "/v1/me/playlists"@
            &&& (reply matches Ok(Fixture::MePlayer)) <==> bare == "/v1/me/player"@
            &&& (reply matches Ok(Fixture::MePlayerRecent)) <==> bare
                == "/v1/me/player/recently-played"@
            &&& (reply matches Ok(Fixture::MeTopTracks)) <==> bare == "/v1/me/top/tracks"@
            &&& reply matches Err(e) ==> e == SpotifyError::Status(404)
        }),
{
    lemma_paths_differ();
}

/// A canned text that was parsed is the reply; one that was not fails to
/// decode.
pub proof fn a_canned_text_is_the_reply(
    parsed: Result<Json, String>,
    reply: Result<Option<Json>, SpotifyError>,
)
    requires
        call_ensures(canned_reply, (parsed,), reply),
    ensures
        parsed matches Ok(j) ==> (reply matches Ok(Some(r)) && r@ == j@),
        parsed matches Err(why) ==> (reply matches Err(SpotifyError::Decode(s)) && s@
            == "mock fixture parse: "@ + why@),
{
}

} // verus!
