//! How a call to the upstream API fails.

use vstd::prelude::*;
use vstd::string::*;

use crate::text::{self, decimal_text};

verus! {

/// Why an upstream call gave no reply. Nothing in it carries a token.
#[derive(Debug, PartialEq)]
pub enum SpotifyError {
    Transport(String),
    Status(u16),
    Decode(String),
}

/// What a [`SpotifyError`] holds.
pub enum SpotifyErrorView {
    Transport(Seq<char>),
    Status(u16),
    Decode(Seq<char>),
}

impl View for SpotifyError {
    type V = SpotifyErrorView;

    open spec fn view(&self) -> SpotifyErrorView {
        match *self {
            SpotifyError::Transport(s) => SpotifyErrorView::Transport(s@),
            SpotifyError::Status(n) => SpotifyErrorView::Status(n),
            SpotifyError::Decode(s) => SpotifyErrorView::Decode(s@),
        }
    }
}

impl SpotifyErrorView {
    /// The failure in words.
    pub open spec fn message(self) -> Seq<char> {
        match self {
            SpotifyErrorView::Transport(s) => "spotify transport error: "@ + s,
            SpotifyErrorView::Status(n) => "spotify returned status "@ + text::decimal(n as nat),
            SpotifyErrorView::Decode(s) => "spotify response decode failed: "@ + s,
        }
    }
}

impl SpotifyError {
    /// The failure in words.
    pub fn message(&self) -> (m: String)
        ensures
            m@ == self@.message(),
    {
        match self {
            SpotifyError::Transport(s) => "spotify transport error: ".to_owned().concat(s.as_str()),
            SpotifyError::Status(n) => "spotify returned status ".to_owned().concat(
                decimal_text(*n as u64).as_str(),
            ),
            SpotifyError::Decode(s) => "spotify response decode failed: ".to_owned().concat(
                s.as_str(),
            ),
        }
    }
}

} // verus!
