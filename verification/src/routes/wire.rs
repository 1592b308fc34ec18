//! Log lines about the requests to the data plane. The body of a response
//! is buffered for them, up to a limit.

use vstd::prelude::*;
use vstd::utf8::*;

use crate::app::snapshots::EndpointKind;
use crate::infra::http_logging::{Direction, LogLevel, WireLine, WireLineView};
use crate::routes::reply::{self, plain_reply, Reply};

verus! {

/// The target of these lines.
pub const FRONTEND_TARGET: &'static str = "music_api::wire::fe";

/// The largest body that is buffered, in bytes.
pub const BUFFER_LIMIT: usize = 10_485_760;

/// The line for a request that came in.
pub fn frontend_request(method: &str, path: &str) -> (line: WireLine)
    ensures
        line@ == (WireLineView {
            level: LogLevel::Info,
            target: FRONTEND_TARGET@,
            direction: Some(Direction::There),
            method: method@,
            place: path@,
            status: None,
            length: None,
            error: None,
            elapsed_ms: None,
            body: None,
            message: "frontend request"@,
        }),
{
    WireLine {
        level: LogLevel::Info,
        target: FRONTEND_TARGET,
        direction: Some(Direction::There),
        method: method.to_owned(),
        place: path.to_owned(),
        status: None,
        length: None,
        error: None,
        elapsed_ms: None,
        body: None,
        message: "frontend request",
    }
}

/// What `String::from_utf8_lossy` makes of bytes: a text in which whatever
/// is no UTF-8 has been replaced.
pub uninterp spec fn lossy_text(bytes: Seq<u8>) -> Seq<char>;

/// `String::from_utf8_lossy`. Claimed: the text depends on the bytes alone,
/// and is the text that they encode where they are UTF-8.
#[verifier::external_body]
fn text_from_utf8_lossy(bytes: &[u8]) -> (text: String)
    ensures
        text@ == lossy_text(bytes@),
        valid_utf8(bytes@) ==> text@ == decode_utf8(bytes@),
{
    String::from_utf8_lossy(bytes).into_owned()
}

/// What becomes of a response once its body has been buffered, or not.
pub enum Relay {
    /// The response goes out as it is. The first line shows its body, the
    /// second sums it up.
    Relay(WireLine, WireLine),
    /// The body could not be buffered: this response goes out in its place,
    /// and this line tells why.
    Replace(Reply, WireLine),
}

/// The line that shows the body of a response.
pub open spec fn body_line_view(
    method: Seq<char>,
    path: Seq<char>,
    status: u16,
    body: Seq<char>,
) -> WireLineView {
    WireLineView {
        level: LogLevel::Debug,
        target: FRONTEND_TARGET@,
        direction: Some(Direction::Back),
        method,
        place: path,
        status: Some(status),
        length: None,
        error: None,
        elapsed_ms: None,
        body: Some(body),
        message: "frontend response (body)"@,
    }
}

/// The line that sums up a response.
pub open spec fn summary_line_view(
    method: Seq<char>,
    path: Seq<char>,
    status: u16,
    bytes: u64,
    elapsed_ms: u64,
) -> WireLineView {
    WireLineView {
        level: LogLevel::Info,
        target: FRONTEND_TARGET@,
        direction: Some(Direction::Back),
        method,
        place: path,
        status: Some(status),
        length: Some(bytes),
        error: None,
        elapsed_ms: Some(elapsed_ms),
        body: None,
        message: "frontend response"@,
    }
}

/// The line for a body that could not be buffered.
pub open spec fn unbuffered_line_view(
    method: Seq<char>,
    path: Seq<char>,
    why: Seq<char>,
) -> WireLineView {
    WireLineView {
        level: LogLevel::Warn,
        target: FRONTEND_TARGET@,
        direction: None,
        method,
        place: path,
        status: None,
        length: None,
        error: Some(why),
        elapsed_ms: None,
        body: None,
        message: "failed to buffer fe response body for logging"@,
    }
}

/// Decide what becomes of a response: `buffered` are the bytes of its body, or why it
/// could not be buffered.
pub fn relay(
    method: &str,
    path: &str,
    status: u16,
    buffered: Result<&[u8], String>,
    elapsed_ms: u64,
) -> (relay: Relay)
    ensures
        match (buffered, relay) {
            (Ok(body), Relay::Relay(shown, summary)) => {
                &&& shown@ == body_line_view(method@, path@, status, lossy_text(body@))
                &&& valid_utf8(body@) ==> shown@ == body_line_view(
                    method@,
                    path@,
                    status,
                    decode_utf8(body@),
                )
                &&& summary@ == summary_line_view(
                    method@,
                    path@,
                    status,
                    body@.len() as u64,
                    elapsed_ms,
                )
                &&& body@.len() <= u64::MAX
            },
            (Err(why), Relay::Replace(r, line)) => {
                &&& r@ == reply::plain(500, "log buffer failed"@)
                &&& line@ == unbuffered_line_view(method@, path@, why@)
            },
            _ => false,
        },
{
    match buffered {
        Ok(body) => Relay::Relay(
            WireLine {
                level: LogLevel::Debug,
                target: FRONTEND_TARGET,
                direction: Some(Direction::Back),
                method: method.to_owned(),
                place: path.to_owned(),
                status: Some(status),
                length: None,
                error: None,
                elapsed_ms: None,
                body: Some(text_from_utf8_lossy(body)),
                message: "frontend response (body)",
            },
            WireLine {
                level: LogLevel::Info,
                target: FRONTEND_TARGET,
                direction: Some(Direction::Back),
                method: method.to_owned(),
                place: path.to_owned(),
                status: Some(status),
                length: Some(body.len() as u64),
                error: None,
                elapsed_ms: Some(elapsed_ms),
                body: None,
                message: "frontend response",
            },
        ),
        Err(why) => Relay::Replace(
            plain_reply(500, "log buffer failed"),
            WireLine {
                level: LogLevel::Warn,
                target: FRONTEND_TARGET,
                direction: None,
                method: method.to_owned(),
                place: path.to_owned(),
                status: None,
                length: None,
                error: Some(why),
                elapsed_ms: None,
                body: None,
                message: "failed to buffer fe response body for logging",
            },
        ),
    }
}

/// A log line about a request to an endpoint, at [`FRONTEND_TARGET`].
#[derive(Debug, PartialEq)]
pub struct EndpointLine {
    pub level: LogLevel,
    pub direction: Direction,
    pub endpoint: EndpointKind,
    pub status: Option<u16>,
    /// The length of the body.
    pub bytes: Option<u64>,
    pub body: Option<String>,
    pub message: &'static str,
}

/// What an [`EndpointLine`] holds.
pub struct EndpointLineView {
    pub level: LogLevel,
    pub direction: Direction,
    pub endpoint: EndpointKind,
    pub status: Option<u16>,
    pub bytes: Option<u64>,
    pub body: Option<Seq<char>>,
    pub message: Seq<char>,
}

impl View for EndpointLine {
    type V = EndpointLineView;

    open spec fn view(&self) -> EndpointLineView {
        EndpointLineView {
            level: self.level,
            direction: self.direction,
            endpoint: self.endpoint,
            status: self.status,
            bytes: self.bytes,
            body: match self.body {
                Some(b) => Some(b@),
                None => None,
            },
            message: self.message@,
        }
    }
}

/// The line for a request to an endpoint.
pub fn endpoint_request(endpoint: EndpointKind) -> (line: EndpointLine)
    ensures
        line@ == (EndpointLineView {
            level: LogLevel::Info,
            direction: Direction::There,
            endpoint,
            status: None,
            bytes: None,
            body: None,
            message: "frontend request"@,
        }),
{
    EndpointLine {
        level: LogLevel::Info,
        direction: Direction::There,
        endpoint,
        status: None,
        bytes: None,
        body: None,
        message: "frontend request",
    }
}

/// The lines for a response of an endpoint: the first shows its body, the
/// second gives the body's length in bytes.
pub fn endpoint_response(endpoint: EndpointKind, status: u16, body: &str) -> (lines: (
    EndpointLine,
    EndpointLine,
))
    ensures
        lines.0@ == (EndpointLineView {
            level: LogLevel::Debug,
            direction: Direction::Back,
            endpoint,
            status: Some(status),
            bytes: None,
            body: Some(body@),
            message: "frontend response (body)"@,
        }),
        lines.1@ == (EndpointLineView {
            level: LogLevel::Info,
            direction: Direction::Back,
            endpoint,
            status: Some(status),
            bytes: Some(encode_utf8(body@).len() as u64),
            body: None,
            message: "frontend response"@,
        }),
        encode_utf8(body@).len() <= u64::MAX,
{
    let bytes: u64 = body.as_bytes().len() as u64;
    (
        EndpointLine {
            level: LogLevel::Debug,
            direction: Direction::Back,
            endpoint,
            status: Some(status),
            bytes: None,
            body: Some(body.to_owned()),
            message: "frontend response (body)",
        },
        EndpointLine {
            level: LogLevel::Info,
            direction: Direction::Back,
            endpoint,
            status: Some(status),
            bytes: Some(bytes),
            body: None,
            message: "frontend response",
        },
    )
}

} // verus!
