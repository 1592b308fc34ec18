//! The owner's stored tokens.

use vstd::prelude::*;
use vstd::string::*;

use crate::time::Timestamp;

verus! {

/// The token set of the single owner.
#[derive(Debug, PartialEq, Eq)]
pub struct TokenRecord {
    pub access_token: String,
    pub refresh_token: String,
    pub expires_at: Timestamp,
    pub scope: String,
    pub owner_id: String,
}

/// What a [`TokenRecord`] holds.
pub struct TokenView {
    pub access_token: Seq<char>,
    pub refresh_token: Seq<char>,
    pub expires_at: Timestamp,
    pub scope: Seq<char>,
    pub owner_id: Seq<char>,
}

impl View for TokenRecord {
    type V = TokenView;

    open spec fn view(&self) -> TokenView {
        TokenView {
            access_token: self.access_token@,
            refresh_token: self.refresh_token@,
            expires_at: self.expires_at,
            scope: self.scope@,
            owner_id: self.owner_id@,
        }
    }
}

impl Clone for TokenRecord {
    fn clone(&self) -> (same: TokenRecord)
        ensures
            same@ == self@,
    {
        TokenRecord {
            access_token: self.access_token.clone(),
            refresh_token: self.refresh_token.clone(),
            expires_at: self.expires_at,
            scope: self.scope.clone(),
            owner_id: self.owner_id.clone(),
        }
    }
}

/// Why the token storage failed.
#[derive(Debug, PartialEq)]
pub enum RepoError {
    Backend(String),
}

/// What a [`RepoError`] holds.
pub enum RepoErrorView {
    Backend(Seq<char>),
}

impl View for RepoError {
    type V = RepoErrorView;

    open spec fn view(&self) -> RepoErrorView {
        match *self {
            RepoError::Backend(s) => RepoErrorView::Backend(s@),
        }
    }
}

impl RepoErrorView {
    /// The failure in words.
    pub open spec fn message(self) -> Seq<char> {
        match self {
            RepoErrorView::Backend(s) => "storage backend error: "@ + s,
        }
    }
}

impl RepoError {
    /// The failure in words.
    pub fn message(&self) -> (m: String)
        ensures
            m@ == self@.message(),
    {
        match self {
            RepoError::Backend(s) => "storage backend error: ".to_owned().concat(s.as_str()),
        }
    }
}

} // verus!
