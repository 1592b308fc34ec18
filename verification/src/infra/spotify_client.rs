//! Rules of the client for the upstream API: the address of a request, the
//! pace, and what the status of a response means.

use vstd::prelude::*;
use vstd::string::*;

use crate::domain::spotify::{SpotifyError, SpotifyErrorView};
use crate::json::{Json, JsonView};
use crate::time::Duration;

verus! {

/// A token bucket: `burst` requests at once, and one more each `period`.
#[derive(Debug, Clone, Copy)]
pub struct RequestQuota {
    pub period: Duration,
    pub burst: u32,
}

impl RequestQuota {
    /// Bursts of thirty, and one more request each second: about thirty
    /// requests in thirty seconds at a steady pace.
    pub fn production() -> (quota: RequestQuota)
        ensures
            quota.period@ == 1_000_000_000,
            quota.burst == 30,
    {
        RequestQuota { period: Duration::from_secs(1), burst: 30 }
    }
}

/// The address of a request: the path behind the base address, as it is.
pub fn request_url(base_url: &str, path: &str) -> (url: String)
    ensures
        url@ == base_url@ + path@,
{
    base_url.to_owned().concat(path)
}

/// What the status of a response means.
#[derive(Debug, PartialEq)]
pub enum Reading {
    /// The body is to be read as JSON.
    Body,
    /// There is no content, and that is the reply.
    NoContent,
    /// The request failed.
    Failed(SpotifyError),
}

/// What the status of a response means: 204 is a reply without content, any
/// other 2xx one with a body; everything else is a failure.
pub fn read_status(status: u16) -> (reading: Reading)
    ensures
        reading == if status == 204 {
            Reading::NoContent
        } else if 200 <= status < 300 {
            Reading::Body
        } else {
            Reading::Failed(SpotifyError::Status(status))
        },
{
    if !(200 <= status && status < 300) {
        Reading::Failed(SpotifyError::Status(status))
    } else if status == 204 {
        Reading::NoContent
    } else {
        Reading::Body
    }
}

/// The outcome of a request: `sent` is the status of the response, or why
/// none came; `body` is the body as JSON, or why it is none, where the
/// status says that one is to be read.
pub open spec fn reply_outcome_view(
    sent: Result<u16, Seq<char>>,
    body: Option<Result<JsonView, Seq<char>>>,
) -> Result<Option<JsonView>, SpotifyErrorView> {
    match sent {
        Err(why) => Err(SpotifyErrorView::Transport(why)),
        Ok(status) => if status == 204 {
            Ok(None)
        } else if 200 <= status < 300 {
            match body->0 {
                Ok(reply) => Ok(Some(reply)),
                Err(why) => Err(SpotifyErrorView::Decode(why)),
            }
        } else {
            Err(SpotifyErrorView::Status(status))
        },
    }
}

/// The status says that a body is to be read.
pub open spec fn body_expected(sent: Result<u16, String>) -> bool {
    sent matches Ok(status) && 200 <= status < 300 && status != 204
}

/// The status of a response, or why none came.
pub open spec fn sent_view(sent: Result<u16, String>) -> Result<u16, Seq<char>> {
    match sent {
        Ok(status) => Ok(status),
        Err(why) => Err(why@),
    }
}

/// A body as JSON, or why it is none, where one was read.
pub open spec fn body_view(body: Option<Result<Json, String>>) -> Option<
    Result<JsonView, Seq<char>>,
> {
    match body {
        Some(Ok(reply)) => Some(Ok(reply@)),
        Some(Err(why)) => Some(Err(why@)),
        None => None,
    }
}

/// What a request comes to.
pub fn reply_outcome(sent: Result<u16, String>, body: Option<Result<Json, String>>) -> (outcome:
    Result<Option<Json>, SpotifyError>)
    requires
        body is Some <==> body_expected(sent),
    ensures
        crate::app::spotify_service::called_view(outcome) == reply_outcome_view(
            sent_view(sent),
            body_view(body),
        ),
{
    match sent {
        Err(why) => Err(SpotifyError::Transport(why)),
        Ok(status) => match read_status(status) {
            Reading::NoContent => Ok(None),
            Reading::Failed(e) => Err(e),
            Reading::Body => match body {
                Some(Ok(reply)) => Ok(Some(reply)),
                Some(Err(why)) => Err(SpotifyError::Decode(why)),
                None => {
                    assert(false);
                    Ok(None)
                },
            },
        },
    }
}

/// How much of an error body is logged, in characters.
pub const PREVIEW_CHARS: usize = 256;

/// The start of an error body, for the log.
pub fn body_preview(body: &str) -> (preview: String)
    ensures
        preview@ == if body@.len() <= PREVIEW_CHARS {
            body@
        } else {
            body@.take(PREVIEW_CHARS as int)
        },
{
    let n: usize = body.unicode_len();
    let end: usize = if n <= PREVIEW_CHARS {
        n
    } else {
        PREVIEW_CHARS
    };
    proof {
        assert(body@.subrange(0, body@.len() as int) =~= body@);
    }
    body.substring_char(0, end).to_owned()
}

} // verus!
