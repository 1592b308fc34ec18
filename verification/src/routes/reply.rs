//! An HTTP response in plain values.

use vstd::prelude::*;

use crate::json::{self, put, Json, JsonView, Member};

verus! {

/// The body of a response.
#[derive(Debug, PartialEq)]
pub enum Body {
    Empty,
    Text(String),
    Json(Json),
}

/// A response: status, headers beyond those that the body brings, body.
#[derive(Debug, PartialEq)]
pub struct Reply {
    pub status: u16,
    pub headers: Vec<(String, String)>,
    pub body: Body,
}

/// What a [`Body`] holds.
pub enum BodyView {
    Empty,
    Text(Seq<char>),
    Json(JsonView),
}

/// What a [`Reply`] holds.
pub struct ReplyView {
    pub status: u16,
    pub headers: Seq<(Seq<char>, Seq<char>)>,
    pub body: BodyView,
}

impl View for Body {
    type V = BodyView;

    open spec fn view(&self) -> BodyView {
        match *self {
            Body::Empty => BodyView::Empty,
            Body::Text(s) => BodyView::Text(s@),
            Body::Json(j) => BodyView::Json(j@),
        }
    }
}

/// The texts of headers.
pub open spec fn headers_view(headers: Seq<(String, String)>) -> Seq<(Seq<char>, Seq<char>)> {
    headers.map_values(|h: (String, String)| (h.0@, h.1@))
}

impl View for Reply {
    type V = ReplyView;

    open spec fn view(&self) -> ReplyView {
        ReplyView {
            status: self.status,
            headers: headers_view(self.headers@),
            body: self.body@,
        }
    }
}

/// A response with a line of text.
pub open spec fn plain(status: u16, text: Seq<char>) -> ReplyView {
    ReplyView { status, headers: Seq::empty(), body: BodyView::Text(text) }
}

/// A response with JSON.
pub open spec fn with_json(status: u16, body: JsonView) -> ReplyView {
    ReplyView { status, headers: Seq::empty(), body: BodyView::Json(body) }
}

/// A response that names a failure: `{"error": name}`.
pub open spec fn with_error(status: u16, name: Seq<char>) -> ReplyView {
    with_json(status, JsonView::Obj(map!["error"@ => JsonView::Str(name)]))
}

/// Respond with a line of text.
pub fn plain_reply(status: u16, text: &str) -> (reply: Reply)
    ensures
        reply@ == plain(status, text@),
{
    let headers: Vec<(String, String)> = Vec::new();
    assert(headers_view(headers@) =~= Seq::empty());
    Reply { status, headers, body: Body::Text(text.to_owned()) }
}

/// Respond with JSON.
pub fn json_reply(status: u16, body: Json) -> (reply: Reply)
    ensures
        reply@ == with_json(status, body@),
{
    let headers: Vec<(String, String)> = Vec::new();
    assert(headers_view(headers@) =~= Seq::empty());
    Reply { status, headers, body: Body::Json(body) }
}

/// Respond with the name of a failure.
pub fn error_reply(status: u16, name: &str) -> (reply: Reply)
    ensures
        reply@ == with_error(status, name@),
{
    let mut m: Vec<Member> = Vec::new();
    put(&mut m, "error", Json::text(name));
    json_reply(status, Json::Obj(m))
}

/// Append a header.
pub fn push_header(headers: &mut Vec<(String, String)>, name: &str, value: String)
    ensures
        headers_view(final(headers)@) == headers_view(old(headers)@).push((name@, value@)),
{
    headers.push((name.to_owned(), value));
    assert(headers_view(headers@) =~= headers_view(old(headers)@).push((name@, value@)));
}

} // verus!
