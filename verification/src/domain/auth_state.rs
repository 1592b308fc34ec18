//! Authorization state of the single owner: whether the stored refresh
//! token has been rejected, so that the owner must authorize again. A
//! rejected refresh sets the flag; a completed authorization clears it.

use vstd::prelude::*;

verus! {

#[derive(Debug)]
pub struct AuthState {
    needs_reauth: bool,
}

impl View for AuthState {
    type V = bool;

    /// Whether the owner must authorize again.
    closed spec fn view(&self) -> bool {
        self.needs_reauth
    }
}

impl Default for AuthState {
    fn default() -> (state: AuthState)
        ensures
            !state@,
    {
        AuthState { needs_reauth: false }
    }
}

impl AuthState {
    pub fn new() -> (state: AuthState)
        ensures
            !state@,
    {
        AuthState { needs_reauth: false }
    }

    /// True once the refresh token has been rejected and only a fresh
    /// authorization by the owner can recover.
    pub fn needs_reauth(&self) -> (needs: bool)
        ensures
            needs == self@,
    {
        self.needs_reauth
    }

    /// Enter the state in which the owner must authorize again.
    pub fn set_needs_reauth(&mut self)
        ensures
            final(self)@,
    {
        self.needs_reauth = true;
    }

    /// Leave that state, after the owner has authorized.
    pub fn clear(&mut self)
        ensures
            !final(self)@,
    {
        self.needs_reauth = false;
    }
}

} // verus!
