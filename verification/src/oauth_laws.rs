//! What the authorization page reads out of the address: the query, decoded
//! as `application/x-www-form-urlencoded`.

use vstd::prelude::*;
use vstd::utf8::*;

use crate::config::{Config, ConfigView};
use crate::oauth::{self, build_authorize_url, scopes, AUTHORIZE_ENDPOINT};
use crate::text;

verus! {

/// The value of an upper-case hexadecimal digit.
pub open spec fn upper_hex_value(c: char) -> int {
    if c <= '9' {
        c as int - 48
    } else {
        c as int - 55
    }
}

/// The bytes that a text in `application/x-www-form-urlencoded` stands for.
pub open spec fn form_decoded_bytes(s: Seq<char>) -> Seq<u8>
    decreases s.len(),
{
    if s.len() == 0 {
        Seq::empty()
    } else if s[0] == '%' && s.len() >= 3 {
        seq![(16 * upper_hex_value(s[1]) + upper_hex_value(s[2])) as u8] + form_decoded_bytes(
            s.skip(3),
        )
    } else if s[0] == '+' {
        seq![32u8] + form_decoded_bytes(s.skip(1))
    } else {
        seq![s[0] as u8] + form_decoded_bytes(s.skip(1))
    }
}

/// The text that a text in `application/x-www-form-urlencoded` stands for.
pub open spec fn form_decoded(s: Seq<char>) -> Seq<char> {
    decode_utf8(form_decoded_bytes(s))
}

/// The name and the value of a parameter: what stands before and after its
/// first `=`.
pub open spec fn param_decoded(param: Seq<char>) -> (Seq<char>, Seq<char>) {
    let name = text::before(param, '=');
    (form_decoded(name), form_decoded(param.skip(name.len() as int + 1)))
}

/// The parameters of a query, which stand between its `&`.
pub open spec fn query_decoded(query: Seq<char>) -> Seq<(Seq<char>, Seq<char>)>
    decreases query.len(),
{
    if query.len() == 0 {
        Seq::empty()
    } else {
        let param = text::before(query, '&');
        seq![param_decoded(param)] + if param.len() < query.len() {
            query_decoded(query.skip(param.len() as int + 1))
        } else {
            Seq::empty()
        }
    }
}

proof fn lemma_form_bytes_front(b: u8, rest: Seq<u8>)
    ensures
        oauth::form_bytes(seq![b] + rest) == oauth::form_byte(b) + oauth::form_bytes(rest),
    decreases rest.len(),
{
    let all = seq![b] + rest;
    if rest.len() == 0 {
        assert(all.drop_last() =~= Seq::empty());
        assert(oauth::form_bytes(all.drop_last()) =~= Seq::<char>::empty());
        assert(oauth::form_bytes(all) =~= oauth::form_byte(b) + oauth::form_bytes(rest));
    } else {
        assert(all.drop_last() =~= seq![b] + rest.drop_last());
        lemma_form_bytes_front(b, rest.drop_last());
        assert(oauth::form_bytes(all) =~= oauth::form_byte(b) + oauth::form_bytes(rest));
    }
}

proof fn lemma_bytes_decode(bytes: Seq<u8>)
    ensures
        form_decoded_bytes(oauth::form_bytes(bytes)) == bytes,
    decreases bytes.len(),
{
    if bytes.len() > 0 {
        let b = bytes[0];
        let rest = bytes.skip(1);
        assert(bytes =~= seq![b] + rest);
        lemma_form_bytes_front(b, rest);
        lemma_bytes_decode(rest);
        let s = oauth::form_bytes(bytes);
        let front = oauth::form_byte(b);
        assert(s == front + oauth::form_bytes(rest));
        assert(s.skip(front.len() as int) =~= oauth::form_bytes(rest));
        assert(s[0] == front[0]);
        if !oauth::form_plain(b) && b != 32 {
            let hi = b as int / 16;
            let lo = b as int % 16;
            assert(0 <= hi < 16 && 0 <= lo < 16 && b == 16 * hi + lo);
            assert(s[1] == front[1] && s[2] == front[2]);
            assert(upper_hex_value(oauth::upper_hex_digit(hi)) == hi);
            assert(upper_hex_value(oauth::upper_hex_digit(lo)) == lo);
        }
        assert(form_decoded_bytes(s) =~= bytes);
    }
}

/// How a character of one byte is written: letters, digits and `*-._` as
/// they are, a space as a plus sign, anything else as a percent sign and
/// its two upper-case hexadecimal digits.
pub proof fn characters_are_written_so(c: char)
    requires
        '\0' <= c <= '\u{7f}',
    ensures
        ({
            let written = oauth::form_text(seq![c]);
            let plain = '0' <= c <= '9' || 'A' <= c <= 'Z' || 'a' <= c <= 'z' || c == '*' || c
                == '-' || c == '.' || c == '_';
            &&& plain ==> written == seq![c]
            &&& c == ' ' ==> written == seq!['+']
            &&& !plain && c != ' ' ==> written.len() == 3 && written[0] == '%' && upper_hex_value(
                written[1],
            ) == c as int / 16 && upper_hex_value(written[2]) == c as int % 16
        }),
{
    let s = seq![c];
    assert(is_ascii_chars(s));
    is_ascii_chars_encode_utf8(s);
    let bytes = encode_utf8(s);
    assert(bytes.len() == 1 && bytes[0] == c as u8);
    assert(bytes.drop_last() =~= Seq::empty());
    assert(oauth::form_bytes(bytes.drop_last()) =~= Seq::<char>::empty());
    assert(oauth::form_bytes(bytes) =~= oauth::form_byte(c as u8));
    let hi = c as int / 16;
    let lo = c as int % 16;
    assert(0 <= hi < 16 && 0 <= lo < 16);
}

/// What is encoded decodes to what it was.
pub proof fn encoding_round_trips(s: Seq<char>)
    ensures
        form_decoded(oauth::form_text(s)) == s,
{
    lemma_bytes_decode(encode_utf8(s));
    encode_utf8_decode_utf8(s);
}

/// Text without `c` in front of `c` is what stands before it.
proof fn lemma_before(front: Seq<char>, rest: Seq<char>, c: char)
    requires
        forall|i: int| 0 <= i < front.len() ==> #[trigger] front[i] != c,
        rest.len() > 0 ==> rest[0] == c,
    ensures
        text::before(front + rest, c) == front,
    decreases front.len(),
{
    let all = front + rest;
    if front.len() == 0 {
        assert(text::before(all, c) =~= front);
    } else {
        assert forall|i: int| 0 <= i < front.skip(1).len() implies #[trigger] front.skip(1)[i]
            != c by {
            assert(front.skip(1)[i] == front[i + 1]);
        }
        lemma_before(front.skip(1), rest, c);
        assert(all.skip(1) =~= front.skip(1) + rest);
        assert(all[0] == front[0]);
        assert(front =~= seq![front[0]] + front.skip(1));
    }
}

proof fn lemma_no_separator(s: Seq<char>)
    ensures
        forall|i: int|
            0 <= i < oauth::form_text(s).len() ==> #[trigger] oauth::form_text(s)[i] != '&'
                && oauth::form_text(s)[i] != '=',
{
    assert forall|i: int| 0 <= i < oauth::form_text(s).len() implies #[trigger] oauth::form_text(
        s,
    )[i] != '&' && oauth::form_text(s)[i] != '=' by {
        oauth::values_stay_values(encode_utf8(s), i);
    }
}

proof fn lemma_pair_decodes(pair: (Seq<char>, Seq<char>))
    ensures
        param_decoded(oauth::form_pair(pair)) == pair,
        oauth::form_pair(pair).len() > 0,
        forall|i: int|
            0 <= i < oauth::form_pair(pair).len() ==> #[trigger] oauth::form_pair(pair)[i] != '&',
{
    reveal_strlit("=");
    lemma_no_separator(pair.0);
    lemma_no_separator(pair.1);
    let p = oauth::form_pair(pair);
    let name = oauth::form_text(pair.0);
    let rest = "="@ + oauth::form_text(pair.1);
    assert(p =~= name + rest);
    lemma_before(name, rest, '=');
    assert(p.skip(name.len() as int + 1) =~= oauth::form_text(pair.1));
    encoding_round_trips(pair.0);
    encoding_round_trips(pair.1);
}

proof fn lemma_join_front(first: Seq<char>, rest: Seq<Seq<char>>, sep: Seq<char>)
    requires
        rest.len() > 0,
    ensures
        text::join(seq![first] + rest, sep) == first + sep + text::join(rest, sep),
    decreases rest.len(),
{
    let all = seq![first] + rest;
    assert(all.drop_last() =~= seq![first] + rest.drop_last());
    assert(all.last() == rest.last());
    if rest.len() == 1 {
        assert(all.drop_last() =~= seq![first]);
        assert(text::join(all.drop_last(), sep) == first);
    } else {
        lemma_join_front(first, rest.drop_last(), sep);
    }
    assert(text::join(all, sep) =~= first + sep + text::join(rest, sep));
}

/// A query decodes to exactly the names and values it was made from,
/// whatever characters they hold.
pub proof fn query_round_trips(pairs: Seq<(Seq<char>, Seq<char>)>)
    ensures
        query_decoded(oauth::form_pairs(pairs)) == pairs,
    decreases pairs.len(),
{
    let encode = |pair: (Seq<char>, Seq<char>)| oauth::form_pair(pair);
    let parts = pairs.map_values(encode);
    let query = oauth::form_pairs(pairs);
    reveal_strlit("&");
    if pairs.len() == 0 {
        assert(query_decoded(query) =~= pairs);
    } else {
        let first = oauth::form_pair(pairs[0]);
        let rest = pairs.skip(1);
        lemma_pair_decodes(pairs[0]);
        query_round_trips(rest);
        assert(parts =~= seq![first] + rest.map_values(encode));
        if rest.len() == 0 {
            assert(query =~= first + Seq::<char>::empty());
            lemma_before(first, Seq::empty(), '&');
        } else {
            lemma_join_front(first, rest.map_values(encode), "&"@);
            let tail = "&"@ + oauth::form_pairs(rest);
            assert(query =~= first + tail);
            lemma_before(first, tail, '&');
            assert(query.skip(first.len() as int + 1) =~= oauth::form_pairs(rest));
        }
        assert(query_decoded(query) =~= pairs);
    }
}

/// The service asks for six scopes, all of them to read.
pub proof fn six_scopes_are_asked_for(list: Vec<String>)
    requires
        call_ensures(scopes, (), list),
    ensures
        list@.len() == 6,
        list@[0]@ == "user-read-playback-state"@,
        list@[1]@ == "user-read-recently-played"@,
        list@[2]@ == "user-top-read"@,
        list@[3]@ == "user-read-private"@,
        list@[4]@ == "playlist-read-private"@,
        list@[5]@ == "user-follow-read"@,
{
    let t = text::texts(list@);
    assert(t.len() == 6 && t.len() == list@.len());
    assert(t[0] == list@[0]@ && t[1] == list@[1]@ && t[2] == list@[2]@);
    assert(t[3] == list@[3]@ && t[4] == list@[4]@ && t[5] == list@[5]@);
}

proof fn lemma_scopes_joined()
    ensures
        text::join(oauth::scopes_view(), " "@)
            == "user-read-playback-state user-read-recently-played user-top-read user-read-private playlist-read-private user-follow-read"@,
{
    let s = oauth::scopes_view();
    reveal_with_fuel(text::join, 7);
    assert(s.drop_last().drop_last().drop_last().drop_last().drop_last() =~= seq![s[0]]);
    assert(s.drop_last().drop_last().drop_last().drop_last().last() == s[1]);
    assert(s.drop_last().drop_last().drop_last().last() == s[2]);
    assert(s.drop_last().drop_last().last() == s[3]);
    assert(s.drop_last().last() == s[4]);
    assert(s.last() == s[5]);
    assert(text::join(s, " "@) =~= s[0] + " "@ + s[1] + " "@ + s[2] + " "@ + s[3] + " "@ + s[4]
        + " "@ + s[5]);
    reveal_strlit(" ");
    reveal_strlit("user-read-playback-state");
    reveal_strlit("user-read-recently-played");
    reveal_strlit("user-top-read");
    reveal_strlit("user-read-private");
    reveal_strlit("playlist-read-private");
    reveal_strlit("user-follow-read");
    reveal_strlit(
        "user-read-playback-state user-read-recently-played user-top-read user-read-private playlist-read-private user-follow-read",
    );
    assert(text::join(s, " "@)
        =~= "user-read-playback-state user-read-recently-played user-top-read user-read-private playlist-read-private user-follow-read"@);
}

/// The owner is sent to the authorization page with five parameters, which
/// decode to the code flow, the client and the redirect address of the
/// settings, the scopes, and the very `state` value.
pub proof fn five_parameters_are_sent(config: &Config, state: &str, address: String)
    requires
        call_ensures(build_authorize_url, (config, state), address),
    ensures
        ({
            let page = "https://accounts.spotify.com/authorize?"@;
            let told = query_decoded(address@.skip(page.len() as int));
            &&& page.len() <= address@.len() && address@.take(page.len() as int) == page
            &&& told.len() == 5
            &&& told[0] == ("response_type"@, "code"@)
            &&& told[1] == ("client_id"@, config.spotify_client_id@)
            &&& told[2] == ("redirect_uri"@, config.spotify_redirect_uri@)
            &&& told[3] == (
                "scope"@,
                "user-read-playback-state user-read-recently-played user-top-read user-read-private playlist-read-private user-follow-read"@,
            )
            &&& told[4] == ("state"@, state@)
        }),
{
    let page = "https://accounts.spotify.com/authorize?"@;
    page_reads_the_parameters(config@, state@);
    lemma_scopes_joined();
    reveal_strlit("https://accounts.spotify.com/authorize?");
    reveal_strlit("https://accounts.spotify.com/authorize");
    reveal_strlit("?");
    assert(page =~= AUTHORIZE_ENDPOINT@ + "?"@);
    assert(address@.take(page.len() as int) =~= page);
}

/// The authorization page reads exactly what it is told: the query of the
/// address decodes to the parameters.
pub proof fn page_reads_the_parameters(config: ConfigView, state: Seq<char>)
    ensures
        ({
            let url = oauth::authorize_url(config, state);
            let query = url.skip(AUTHORIZE_ENDPOINT@.len() as int + 1);
            query_decoded(query) == oauth::authorize_params(config, state)
        }),
{
    reveal_strlit("?");
    let pairs = oauth::authorize_params(config, state);
    query_round_trips(pairs);
    let url = oauth::authorize_url(config, state);
    assert(url.skip(AUTHORIZE_ENDPOINT@.len() as int + 1) =~= oauth::form_pairs(pairs));
}

} // verus!
