//! Which log lines an outbound request gets: one when it is sent, one when
//! it has been answered or has failed. They hold neither headers nor bodies.

use vstd::prelude::*;

verus! {

/// A log target of the outbound clients.
#[derive(Debug, Clone, Copy, PartialEq, Eq, Structural)]
pub enum WireTarget {
    SpotifyHttp,
    SpotifyOAuthHttp,
}

/// How loud a line is.
#[derive(Debug, Clone, Copy, PartialEq, Eq, Structural)]
pub enum LogLevel {
    Debug,
    Info,
    Warn,
}

/// Which way a message goes.
#[derive(Debug, Clone, Copy, PartialEq, Eq, Structural)]
pub enum Direction {
    /// A request to the peer.
    There,
    /// A response, or the lack of one.
    Back,
}

impl WireTarget {
    /// The name of the target in a log filter.
    pub open spec fn name_view(self) -> Seq<char> {
        match self {
            WireTarget::SpotifyHttp => "music_api::wire::spotify_http"@,
            WireTarget::SpotifyOAuthHttp => "music_api::wire::spotify_oauth_http"@,
        }
    }

    /// The name of the target in a log filter.
    pub fn name(&self) -> (name: &'static str)
        ensures
            name@ == self.name_view(),
    {
        match self {
            WireTarget::SpotifyHttp => "music_api::wire::spotify_http",
            WireTarget::SpotifyOAuthHttp => "music_api::wire::spotify_oauth_http",
        }
    }
}

/// A log line about one message between two services.
#[derive(Debug, PartialEq)]
pub struct WireLine {
    pub level: LogLevel,
    pub target: &'static str,
    pub direction: Option<Direction>,
    pub method: String,
    /// The URL, or the path of an inbound request.
    pub place: String,
    pub status: Option<u16>,
    /// The length of the body, where it is known.
    pub length: Option<u64>,
    pub error: Option<String>,
    pub elapsed_ms: Option<u64>,
    pub body: Option<String>,
    pub message: &'static str,
}

/// What a [`WireLine`] holds.
pub struct WireLineView {
    pub level: LogLevel,
    pub target: Seq<char>,
    pub direction: Option<Direction>,
    pub method: Seq<char>,
    pub place: Seq<char>,
    pub status: Option<u16>,
    pub length: Option<u64>,
    pub error: Option<Seq<char>>,
    pub elapsed_ms: Option<u64>,
    pub body: Option<Seq<char>>,
    pub message: Seq<char>,
}

impl View for WireLine {
    type V = WireLineView;

    open spec fn view(&self) -> WireLineView {
        WireLineView {
            level: self.level,
            target: self.target@,
            direction: self.direction,
            method: self.method@,
            place: self.place@,
            status: self.status,
            length: self.length,
            error: match self.error {
                Some(e) => Some(e@),
                None => None,
            },
            elapsed_ms: self.elapsed_ms,
            body: match self.body {
                Some(b) => Some(b@),
                None => None,
            },
            message: self.message@,
        }
    }
}

/// The line for a request that is about to be sent.
pub open spec fn outbound_line_view(
    target: WireTarget,
    method: Seq<char>,
    url: Seq<char>,
) -> WireLineView {
    WireLineView {
        level: LogLevel::Info,
        target: target.name_view(),
        direction: Some(Direction::There),
        method,
        place: url,
        status: None,
        length: None,
        error: None,
        elapsed_ms: None,
        body: None,
        message: "outbound http"@,
    }
}

/// The line for a response.
pub open spec fn response_line_view(
    target: WireTarget,
    method: Seq<char>,
    url: Seq<char>,
    status: u16,
    content_length: Option<u64>,
    elapsed_ms: u64,
) -> WireLineView {
    WireLineView {
        level: LogLevel::Info,
        target: target.name_view(),
        direction: Some(Direction::Back),
        method,
        place: url,
        status: Some(status),
        length: content_length,
        error: None,
        elapsed_ms: Some(elapsed_ms),
        body: None,
        message: "outbound http response"@,
    }
}

/// The line for a request that got no response.
pub open spec fn transport_error_line_view(
    target: WireTarget,
    method: Seq<char>,
    url: Seq<char>,
    error: Seq<char>,
    elapsed_ms: u64,
) -> WireLineView {
    WireLineView {
        level: LogLevel::Warn,
        target: target.name_view(),
        direction: Some(Direction::Back),
        method,
        place: url,
        status: None,
        length: None,
        error: Some(error),
        elapsed_ms: Some(elapsed_ms),
        body: None,
        message: "outbound http error (transport)"@,
    }
}

/// The line for a request that is about to be sent.
pub fn outbound_line(target: WireTarget, method: &str, url: &str) -> (line: WireLine)
    ensures
        line@ == outbound_line_view(target, method@, url@),
{
    WireLine {
        level: LogLevel::Info,
        target: target.name(),
        direction: Some(Direction::There),
        method: method.to_owned(),
        place: url.to_owned(),
        status: None,
        length: None,
        error: None,
        elapsed_ms: None,
        body: None,
        message: "outbound http",
    }
}

/// The line for a response. Whatever its status, it is logged at info.
pub fn response_line(
    target: WireTarget,
    method: &str,
    url: &str,
    status: u16,
    content_length: Option<u64>,
    elapsed_ms: u64,
) -> (line: WireLine)
    ensures
        line@ == response_line_view(target, method@, url@, status, content_length, elapsed_ms),
{
    WireLine {
        level: LogLevel::Info,
        target: target.name(),
        direction: Some(Direction::Back),
        method: method.to_owned(),
        place: url.to_owned(),
        status: Some(status),
        length: content_length,
        error: None,
        elapsed_ms: Some(elapsed_ms),
        body: None,
        message: "outbound http response",
    }
}

/// The line for a request that got no response.
pub fn transport_error_line(
    target: WireTarget,
    method: &str,
    url: &str,
    error: &str,
    elapsed_ms: u64,
) -> (line: WireLine)
    ensures
        line@ == transport_error_line_view(target, method@, url@, error@, elapsed_ms),
{
    WireLine {
        level: LogLevel::Warn,
        target: target.name(),
        direction: Some(Direction::Back),
        method: method.to_owned(),
        place: url.to_owned(),
        status: None,
        length: None,
        error: Some(error.to_owned()),
        elapsed_ms: Some(elapsed_ms),
        body: None,
        message: "outbound http error (transport)",
    }
}

} // verus!
