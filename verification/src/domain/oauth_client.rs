//! What the token endpoint answers.

use vstd::prelude::*;
use vstd::string::*;

use crate::text::{self, decimal_text};

verus! {

/// A fresh token set. A refresh token is there only where the endpoint
/// issued one; otherwise the caller keeps the one it has. `expires_in` is
/// the lifetime in seconds.
#[derive(Debug, PartialEq)]
pub struct RefreshedTokens {
    pub access_token: String,
    pub refresh_token: Option<String>,
    pub expires_in: i64,
    pub scope: Option<String>,
}

/// Why the token endpoint gave no tokens.
#[derive(Debug, PartialEq)]
pub enum TokenExchangeError {
    /// The grant was rejected: only a fresh authorization by the owner
    /// recovers.
    InvalidGrant,
    Transport(String),
    Status(u16),
    Decode(String),
}

/// What a [`RefreshedTokens`] holds.
pub struct RefreshedView {
    pub access_token: Seq<char>,
    pub refresh_token: Option<Seq<char>>,
    pub expires_in: i64,
    pub scope: Option<Seq<char>>,
}

impl View for RefreshedTokens {
    type V = RefreshedView;

    open spec fn view(&self) -> RefreshedView {
        RefreshedView {
            access_token: self.access_token@,
            refresh_token: match self.refresh_token {
                Some(r) => Some(r@),
                None => None,
            },
            expires_in: self.expires_in,
            scope: match self.scope {
                Some(s) => Some(s@),
                None => None,
            },
        }
    }
}

/// What a [`TokenExchangeError`] holds.
pub enum TokenExchangeErrorView {
    InvalidGrant,
    Transport(Seq<char>),
    Status(u16),
    Decode(Seq<char>),
}

impl View for TokenExchangeError {
    type V = TokenExchangeErrorView;

    open spec fn view(&self) -> TokenExchangeErrorView {
        match *self {
            TokenExchangeError::InvalidGrant => TokenExchangeErrorView::InvalidGrant,
            TokenExchangeError::Transport(s) => TokenExchangeErrorView::Transport(s@),
            TokenExchangeError::Status(n) => TokenExchangeErrorView::Status(n),
            TokenExchangeError::Decode(s) => TokenExchangeErrorView::Decode(s@),
        }
    }
}

impl TokenExchangeErrorView {
    /// The failure in words.
    pub open spec fn message(self) -> Seq<char> {
        match self {
            TokenExchangeErrorView::InvalidGrant =>
                "refresh token rejected (invalid_grant) — reauthorization required"@,
            TokenExchangeErrorView::Transport(s) => "token endpoint transport error: "@ + s,
            TokenExchangeErrorView::Status(n) => "token endpoint returned status "@
                + text::decimal(n as nat),
            TokenExchangeErrorView::Decode(s) => "token endpoint response decode failed: "@ + s,
        }
    }
}

impl TokenExchangeError {
    /// The failure in words.
    pub fn message(&self) -> (m: String)
        ensures
            m@ == self@.message(),
    {
        match self {
            TokenExchangeError::InvalidGrant =>
                "refresh token rejected (invalid_grant) — reauthorization required".to_owned(),
            TokenExchangeError::Transport(s) => "token endpoint transport error: ".to_owned().concat(
                s.as_str(),
            ),
            TokenExchangeError::Status(n) => "token endpoint returned status ".to_owned().concat(
                decimal_text(*n as u64).as_str(),
            ),
            TokenExchangeError::Decode(s) =>
                "token endpoint response decode failed: ".to_owned().concat(s.as_str()),
        }
    }
}

} // verus!
