//! The address to which the owner is sent to authorize.

use vstd::prelude::*;
use vstd::string::*;
use vstd::utf8::*;

use url::Url;

use crate::config::{Config, ConfigView};
use crate::text::{self, join_text};

verus! {

/// Where authorization starts.
pub const AUTHORIZE_ENDPOINT: &'static str = "https://accounts.spotify.com/authorize";

/// The scopes that the service asks for: what its endpoints read, and
/// nothing more.
pub open spec fn scopes_view() -> Seq<Seq<char>> {
    seq![
        "user-read-playback-state"@,
        "user-read-recently-played"@,
        "user-top-read"@,
        "user-read-private"@,
        "playlist-read-private"@,
        "user-follow-read"@,
    ]
}

/// The scopes that the service asks for.
pub fn scopes() -> (list: Vec<String>)
    ensures
        text::texts(list@) == scopes_view(),
{
    let mut list: Vec<String> = Vec::new();
    list.push("user-read-playback-state".to_owned());
    list.push("user-read-recently-played".to_owned());
    list.push("user-top-read".to_owned());
    list.push("user-read-private".to_owned());
    list.push("playlist-read-private".to_owned());
    list.push("user-follow-read".to_owned());
    assert(text::texts(list@) =~= scopes_view());
    list
}

/// An upper-case hexadecimal digit.
pub open spec fn upper_hex_digit(d: int) -> char {
    if d < 10 {
        (48 + d) as char
    } else {
        (55 + d) as char
    }
}

/// A byte that stands for itself in a form.
pub open spec fn form_plain(b: u8) -> bool {
    ||| 48 <= b <= 57
    ||| 65 <= b <= 90
    ||| 97 <= b <= 122
    ||| b == 42
    ||| b == 45
    ||| b == 46
    ||| b == 95
}

/// A byte in `application/x-www-form-urlencoded`: letters, digits and
/// `*-._` as they are, a space as `+`, anything else as `%` and two digits.
pub open spec fn form_byte(b: u8) -> Seq<char> {
    if form_plain(b) {
        seq![b as char]
    } else if b == 32 {
        seq!['+']
    } else {
        seq!['%', upper_hex_digit(b as int / 16), upper_hex_digit(b as int % 16)]
    }
}

/// Bytes in `application/x-www-form-urlencoded`.
pub open spec fn form_bytes(bytes: Seq<u8>) -> Seq<char>
    decreases bytes.len(),
{
    if bytes.len() == 0 {
        Seq::empty()
    } else {
        form_bytes(bytes.drop_last()) + form_byte(bytes.last())
    }
}

/// A text in `application/x-www-form-urlencoded`.
pub open spec fn form_text(s: Seq<char>) -> Seq<char> {
    form_bytes(encode_utf8(s))
}

/// A name with its value in `application/x-www-form-urlencoded`.
pub open spec fn form_pair(pair: (Seq<char>, Seq<char>)) -> Seq<char> {
    form_text(pair.0) + "="@ + form_text(pair.1)
}

/// Names with their values in `application/x-www-form-urlencoded`.
pub open spec fn form_pairs(pairs: Seq<(Seq<char>, Seq<char>)>) -> Seq<char> {
    text::join(pairs.map_values(|pair: (Seq<char>, Seq<char>)| form_pair(pair)), "&"@)
}

/// The texts of pairs of strings.
pub open spec fn pairs_view(pairs: Seq<(&str, &str)>) -> Seq<(Seq<char>, Seq<char>)> {
    pairs.map_values(|pair: (&str, &str)| (pair.0@, pair.1@))
}

/// `url::Url::query_pairs_mut` of the authorization endpoint, with pairs
/// appended to the query that it begins. Claimed: the address is followed
/// by a question mark and the pairs in `application/x-www-form-urlencoded`.
#[verifier::external_body]
fn with_query_pairs(endpoint: &str, pairs: &Vec<(&str, &str)>) -> (address: String)
    requires
        endpoint@ == AUTHORIZE_ENDPOINT@,
    ensures
        address@ == endpoint@ + "?"@ + form_pairs(pairs_view(pairs@)),
{
    let mut url = Url::parse(endpoint).unwrap();
    url.query_pairs_mut().extend_pairs(pairs);
    url.into()
}

/// What the authorization page is told.
pub open spec fn authorize_params(config: ConfigView, state: Seq<char>) -> Seq<
    (Seq<char>, Seq<char>),
> {
    seq![
        ("response_type"@, "code"@),
        ("client_id"@, config.spotify_client_id),
        ("redirect_uri"@, config.spotify_redirect_uri),
        ("scope"@, text::join(scopes_view(), " "@)),
        ("state"@, state),
    ]
}

/// The address to which the owner is sent.
pub open spec fn authorize_url(config: ConfigView, state: Seq<char>) -> Seq<char> {
    AUTHORIZE_ENDPOINT@ + "?"@ + form_pairs(authorize_params(config, state))
}

/// Build the address to which the owner is sent, for the authorization code
/// flow.
pub fn build_authorize_url(config: &Config, state: &str) -> (address: String)
    ensures
        address@ == authorize_url(config@, state@),
{
    let scope = join_text(&scopes(), " ");
    let mut pairs: Vec<(&str, &str)> = Vec::new();
    pairs.push(("response_type", "code"));
    pairs.push(("client_id", config.spotify_client_id.as_str()));
    pairs.push(("redirect_uri", config.spotify_redirect_uri.as_str()));
    pairs.push(("scope", scope.as_str()));
    pairs.push(("state", state));
    assert(pairs_view(pairs@) =~= authorize_params(config@, state@));
    with_query_pairs(AUTHORIZE_ENDPOINT, &pairs)
}

/// A character that stands for itself in a form.
pub open spec fn form_plain_char(c: char) -> bool {
    '\0' <= c <= '\u{7f}' && form_plain(c as u8)
}

proof fn lemma_plain_bytes(bytes: Seq<u8>)
    requires
        forall|i: int| 0 <= i < bytes.len() ==> form_plain(#[trigger] bytes[i]),
    ensures
        form_bytes(bytes) == bytes.map_values(|b: u8| b as char),
    decreases bytes.len(),
{
    if bytes.len() > 0 {
        assert forall|i: int| 0 <= i < bytes.drop_last().len() implies form_plain(
            #[trigger] bytes.drop_last()[i],
        ) by {
            assert(bytes.drop_last()[i] == bytes[i]);
        }
        lemma_plain_bytes(bytes.drop_last());
        assert(form_plain(bytes.last()));
        assert(form_bytes(bytes) =~= bytes.map_values(|b: u8| b as char));
    } else {
        assert(form_bytes(bytes) =~= bytes.map_values(|b: u8| b as char));
    }
}

/// Text of plain characters stands for itself.
pub proof fn plain_text_stays(s: Seq<char>)
    requires
        forall|i: int| 0 <= i < s.len() ==> form_plain_char(#[trigger] s[i]),
    ensures
        form_text(s) == s,
{
    assert(is_ascii_chars(s)) by {
        assert forall|i: int| 0 <= i < s.len() implies '\0' <= #[trigger] s[i] <= '\u{7f}' by {
            assert(form_plain_char(s[i]));
        }
    }
    is_ascii_chars_encode_utf8(s);
    let bytes = encode_utf8(s);
    assert forall|i: int| 0 <= i < bytes.len() implies form_plain(#[trigger] bytes[i]) by {
        assert(form_plain_char(s[i]));
    }
    lemma_plain_bytes(bytes);
    assert forall|i: int| 0 <= i < s.len() implies form_text(s)[i] == s[i] by {
        assert(form_plain_char(s[i]));
        assert(bytes[i] == s[i] as u8);
    }
    assert(form_text(s) =~= s);
}

/// No character of a value can end it or begin another parameter: what is
/// encoded holds only plain characters, `+` and `%`.
pub proof fn values_stay_values(bytes: Seq<u8>, i: int)
    requires
        0 <= i < form_bytes(bytes).len(),
    ensures
        ({
            let c = form_bytes(bytes)[i];
            form_plain_char(c) || c == '+' || c == '%'
        }),
    decreases bytes.len(),
{
    if bytes.len() > 0 {
        let front = form_bytes(bytes.drop_last());
        if i < front.len() {
            values_stay_values(bytes.drop_last(), i);
        } else {
            let b = bytes.last();
            assert(form_bytes(bytes)[i] == form_byte(b)[i - front.len()]);
            assert(0 <= b as int / 16 < 16);
            assert(0 <= b as int % 16 < 16);
        }
    }
}

/// The parameters one by one.
proof fn lemma_params_in_turn(config: ConfigView, state: Seq<char>)
    ensures
        ({
            let p = authorize_params(config, state);
            form_pairs(p) == form_pair(p[0]) + "&"@ + form_pair(p[1]) + "&"@ + form_pair(p[2])
                + "&"@ + form_pair(p[3]) + "&"@ + form_pair(p[4])
        }),
{
    let p = authorize_params(config, state);
    let e = p.map_values(|pair: (Seq<char>, Seq<char>)| form_pair(pair));
    reveal_with_fuel(text::join, 6);
    assert(e.drop_last().drop_last().drop_last().drop_last() =~= seq![form_pair(p[0])]);
    assert(e.drop_last().drop_last().drop_last().last() == form_pair(p[1]));
    assert(e.drop_last().drop_last().last() == form_pair(p[2]));
    assert(e.drop_last().last() == form_pair(p[3]));
    assert(e.last() == form_pair(p[4]));
    assert(form_pairs(p) =~= form_pair(p[0]) + "&"@ + form_pair(p[1]) + "&"@ + form_pair(p[2])
        + "&"@ + form_pair(p[3]) + "&"@ + form_pair(p[4]));
}

/// Whatever the settings hold, the owner is sent into the authorization
/// code flow: the address begins with the endpoint and the response type
/// `code`.
#[verifier::rlimit(40)]
pub proof fn always_the_code_flow(config: ConfigView, state: Seq<char>)
    ensures
        text::has_prefix(
            authorize_url(config, state),
            AUTHORIZE_ENDPOINT@ + "?response_type=code&client_id="@,
        ),
{
    let p = authorize_params(config, state);
    lemma_params_in_turn(config, state);
    reveal_strlit("response_type");
    reveal_strlit("code");
    reveal_strlit("client_id");
    reveal_strlit("=");
    reveal_strlit("&");
    reveal_strlit("?");
    reveal_strlit("?response_type=code&client_id=");
    plain_text_stays("response_type"@);
    plain_text_stays("code"@);
    plain_text_stays("client_id"@);
    let head = "?"@ + form_pair(p[0]) + "&"@ + "client_id"@ + "="@;
    assert(head =~= "?response_type=code&client_id="@);
    let url = authorize_url(config, state);
    let rest = form_text(p[1].1) + "&"@ + form_pair(p[2]) + "&"@ + form_pair(p[3]) + "&"@
        + form_pair(p[4]);
    assert(url =~= AUTHORIZE_ENDPOINT@ + head + rest);
    let prefix = AUTHORIZE_ENDPOINT@ + "?response_type=code&client_id="@;
    assert(url.take(prefix.len() as int) =~= prefix);
}

/// The address ends with the `state` value. One that was issued, being
/// hexadecimal, stands there as it is.
#[verifier::rlimit(40)]
pub proof fn state_comes_last(config: ConfigView, bytes: Seq<u8>)
    ensures
        ({
            let state = text::hex(bytes);
            let url = authorize_url(config, state);
            let end = "&state="@ + state;
            end.len() <= url.len() && url.skip(url.len() - end.len()) == end
        }),
{
    let state = text::hex(bytes);
    let p = authorize_params(config, state);
    lemma_params_in_turn(config, state);
    reveal_strlit("state");
    reveal_strlit("=");
    reveal_strlit("&");
    reveal_strlit("&state=");
    plain_text_stays("state"@);
    assert forall|i: int| 0 <= i < state.len() implies form_plain_char(#[trigger] state[i]) by {
        lemma_hex_is_plain(bytes, i);
    }
    plain_text_stays(state);
    let end = "&state="@ + state;
    assert(end =~= "&"@ + form_pair(p[4]));
    let url = authorize_url(config, state);
    let front = AUTHORIZE_ENDPOINT@ + "?"@ + form_pair(p[0]) + "&"@ + form_pair(p[1]) + "&"@
        + form_pair(p[2]) + "&"@ + form_pair(p[3]);
    assert(url =~= front + end);
    assert(url.skip(url.len() - end.len()) =~= end);
}

proof fn lemma_hex_is_plain(bytes: Seq<u8>, i: int)
    requires
        0 <= i < text::hex(bytes).len(),
    ensures
        form_plain_char(text::hex(bytes)[i]),
    decreases bytes.len(),
{
    if bytes.len() > 0 {
        let front = text::hex(bytes.drop_last());
        if i < front.len() {
            lemma_hex_is_plain(bytes.drop_last(), i);
        } else {
            let b = bytes.last() as int;
            assert(0 <= b / 16 < 16);
            assert(0 <= b % 16 < 16);
        }
    }
}

} // verus!
