//! Rules of the client for the token endpoint: the form of each grant, what
//! a response means, and what of a token may be logged.

use vstd::prelude::*;
use vstd::string::*;
use vstd::utf8::*;

use crate::domain::oauth_client::{
    RefreshedTokens, RefreshedView, TokenExchangeError, TokenExchangeErrorView,
};
use crate::json::{Json, JsonView};
use crate::text::{self, decimal_text, str_eq};

verus! {

/// A form: names with values.
pub open spec fn form_view(form: Seq<(String, String)>) -> Seq<(Seq<char>, Seq<char>)> {
    form.map_values(|field: (String, String)| (field.0@, field.1@))
}

fn add_field(form: &mut Vec<(String, String)>, name: &str, value: &str)
    ensures
        form_view(final(form)@) == form_view(old(form)@).push((name@, value@)),
{
    form.push((name.to_owned(), value.to_owned()));
    assert(form_view(form@) =~= form_view(old(form)@).push((name@, value@)));
}

/// The form that asks for new tokens with a refresh token.
pub fn refresh_form(refresh_token: &str) -> (form: Vec<(String, String)>)
    ensures
        form_view(form@) == seq![
            ("grant_type"@, "refresh_token"@),
            ("refresh_token"@, refresh_token@),
        ],
{
    let mut form: Vec<(String, String)> = Vec::new();
    add_field(&mut form, "grant_type", "refresh_token");
    add_field(&mut form, "refresh_token", refresh_token);
    form
}

/// The form that asks for tokens with an authorization code.
pub fn code_form(code: &str, redirect_uri: &str) -> (form: Vec<(String, String)>)
    ensures
        form_view(form@) == seq![
            ("grant_type"@, "authorization_code"@),
            ("code"@, code@),
            ("redirect_uri"@, redirect_uri@),
        ],
{
    let mut form: Vec<(String, String)> = Vec::new();
    add_field(&mut form, "grant_type", "authorization_code");
    add_field(&mut form, "code", code);
    add_field(&mut form, "redirect_uri", redirect_uri);
    form
}

/// The value of the first field of that name; empty where there is none.
pub open spec fn field_value(
    form: Seq<(Seq<char>, Seq<char>)>,
    name: Seq<char>,
) -> Seq<char>
    decreases form.len(),
{
    if form.len() == 0 {
        Seq::empty()
    } else if form[0].0 == name {
        form[0].1
    } else {
        field_value(form.skip(1), name)
    }
}

/// The grant that a form asks for.
pub fn grant_type(form: &Vec<(String, String)>) -> (grant: String)
    ensures
        grant@ == field_value(form_view(form@), "grant_type"@),
{
    let ghost fields = form_view(form@);
    let mut i: usize = 0;
    assert(fields.skip(0) =~= fields);
    while i < form.len()
        invariant
            i <= form@.len(),
            fields == form_view(form@),
            field_value(fields, "grant_type"@) == field_value(
                fields.skip(i as int),
                "grant_type"@,
            ),
        decreases form@.len() - i,
    {
        assert(fields.skip(i as int)[0] == (form@[i as int].0@, form@[i as int].1@));
        if str_eq(form[i].0.as_str(), "grant_type") {
            return form[i].1.clone();
        }
        assert(fields.skip(i as int).skip(1) =~= fields.skip(i + 1));
        i += 1;
    }
    String::new()
}

/// What the status of a response means.
#[derive(Debug, PartialEq)]
pub enum TokenReading {
    /// The body holds the tokens.
    Tokens,
    /// The body says why the grant was refused.
    Refusal,
    /// The exchange failed.
    Failed(TokenExchangeError),
}

/// What the status of a response means: 400 is a refusal whose body says
/// why; any 2xx brings tokens; everything else is a failure.
pub fn read_token_status(status: u16) -> (reading: TokenReading)
    ensures
        reading == if status == 400 {
            TokenReading::Refusal
        } else if 200 <= status < 300 {
            TokenReading::Tokens
        } else {
            TokenReading::Failed(TokenExchangeError::Status(status))
        },
{
    if status == 400 {
        TokenReading::Refusal
    } else if 200 <= status && status < 300 {
        TokenReading::Tokens
    } else {
        TokenReading::Failed(TokenExchangeError::Status(status))
    }
}

/// Why a grant was refused, by the body of the refusal: rejected for good
/// where it says `invalid_grant`.
pub fn refusal(body: &Json) -> (e: TokenExchangeError)
    ensures
        e@ == if body@.field("error"@) == JsonView::Str("invalid_grant"@) {
            TokenExchangeErrorView::InvalidGrant
        } else {
            TokenExchangeErrorView::Status(400)
        },
{
    if let Some(error) = body.get("error") {
        if let Some(s) = error.as_str() {
            if str_eq(s, "invalid_grant") {
                return TokenExchangeError::InvalidGrant;
            }
        }
    }
    TokenExchangeError::Status(400)
}

/// The body of a response, as far as its status asks for it.
pub enum TokenBody {
    Unread,
    /// The JSON of a refusal, or why it is none.
    Refusal(Result<Json, String>),
    /// The tokens, or why the body holds none.
    Tokens(Result<RefreshedTokens, String>),
}

/// The body was read as the status asks.
pub open spec fn body_fits(sent: Result<u16, String>, body: TokenBody) -> bool {
    match sent {
        Err(_) => body is Unread,
        Ok(status) => if status == 400 {
            body is Refusal
        } else if 200 <= status < 300 {
            body is Tokens
        } else {
            body is Unread
        },
    }
}

/// The outcome of an exchange: `sent` is the status of the response, or why
/// none came.
pub open spec fn token_outcome_view(sent: Result<u16, String>, body: TokenBody) -> Result<
    RefreshedView,
    TokenExchangeErrorView,
> {
    match sent {
        Err(why) => Err(TokenExchangeErrorView::Transport(why@)),
        Ok(status) => match body {
            TokenBody::Unread => Err(TokenExchangeErrorView::Status(status)),
            TokenBody::Refusal(Ok(j)) => Err(
                if j@.field("error"@) == JsonView::Str("invalid_grant"@) {
                    TokenExchangeErrorView::InvalidGrant
                } else {
                    TokenExchangeErrorView::Status(400)
                },
            ),
            TokenBody::Tokens(Ok(tokens)) => Ok(tokens@),
            TokenBody::Refusal(Err(why)) | TokenBody::Tokens(Err(why)) => Err(
                TokenExchangeErrorView::Decode(why@),
            ),
        },
    }
}

/// What an exchange comes to.
pub fn token_outcome(sent: Result<u16, String>, body: TokenBody) -> (outcome: Result<
    RefreshedTokens,
    TokenExchangeError,
>)
    requires
        body_fits(sent, body),
    ensures
        crate::app::spotify_service::refreshed_view(outcome) == token_outcome_view(sent, body),
{
    match sent {
        Err(why) => Err(TokenExchangeError::Transport(why)),
        Ok(status) => match body {
            TokenBody::Unread => Err(TokenExchangeError::Status(status)),
            TokenBody::Refusal(Ok(j)) => Err(refusal(&j)),
            TokenBody::Tokens(Ok(tokens)) => Ok(tokens),
            TokenBody::Refusal(Err(why)) => Err(TokenExchangeError::Decode(why)),
            TokenBody::Tokens(Err(why)) => Err(TokenExchangeError::Decode(why)),
        },
    }
}

/// What is logged of a token: the first six bytes and the length in bytes,
/// or three stars where it has eight bytes or less.
pub open spec fn masked(token: Seq<char>) -> Seq<char> {
    let bytes = encode_utf8(token);
    if bytes.len() <= 8 {
        "***"@
    } else {
        decode_utf8(bytes.take(6)) + "…(len="@ + text::decimal(bytes.len()) + ")"@
    }
}

/// What is logged of a token. A token of more than eight bytes must not
/// have a character that straddles its sixth and seventh byte.
pub fn mask_token(s: &str) -> (shown: String)
    requires
        encode_utf8(s@).len() > 8 ==> is_char_boundary(encode_utf8(s@), 6),
    ensures
        shown@ == masked(s@),
{
    broadcast use encode_utf8_decode_utf8;

    let bytes = s.as_bytes();
    let n: usize = bytes.len();
    if n <= 8 {
        return "***".to_owned();
    }
    let (head, _) = s.split_at(6);
    proof {
        assert(head.spec_bytes() =~= bytes@.take(6));
        assert(decode_utf8(encode_utf8(head@)) == head@);
    }
    head.to_owned().concat("…(len=").concat(decimal_text(n as u64).as_str()).concat(")")
}

/// What is logged of a token that may be missing.
pub fn mask_optional(token: &Option<String>) -> (shown: String)
    requires
        token matches Some(t) ==> encode_utf8(t@).len() > 8 ==> is_char_boundary(
            encode_utf8(t@),
            6,
        ),
    ensures
        shown@ == match *token {
            Some(t) => masked(t@),
            None => "<absent>"@,
        },
{
    match token {
        Some(t) => mask_token(t.as_str()),
        None => "<absent>".to_owned(),
    }
}

/// What is logged of a token shows no more than its first six bytes and its
/// length: two tokens that agree in these look alike.
pub proof fn mask_hides_the_rest(a: Seq<char>, b: Seq<char>)
    requires
        encode_utf8(a).len() == encode_utf8(b).len(),
        encode_utf8(a).len() > 8 ==> encode_utf8(a).take(6) == encode_utf8(b).take(6),
    ensures
        masked(a) == masked(b),
{
}

} // verus!
