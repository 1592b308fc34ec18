//! Kill switch for outbound traffic. While it is off, no scheduler tick
//! fetches and the `/v1/*` handlers serve only what the snapshots hold. It
//! lives in memory and starts enabled.

use vstd::prelude::*;

verus! {

#[derive(Debug)]
pub struct SpotifyToggle {
    enabled: bool,
}

impl View for SpotifyToggle {
    type V = bool;

    /// Whether outbound traffic is allowed.
    closed spec fn view(&self) -> bool {
        self.enabled
    }
}

impl Default for SpotifyToggle {
    fn default() -> (toggle: SpotifyToggle)
        ensures
            toggle@,
    {
        SpotifyToggle { enabled: true }
    }
}

impl SpotifyToggle {
    pub fn new() -> (toggle: SpotifyToggle)
        ensures
            toggle@,
    {
        SpotifyToggle { enabled: true }
    }

    /// True while outbound traffic is allowed.
    pub fn is_enabled(&self) -> (enabled: bool)
        ensures
            enabled == self@,
    {
        self.enabled
    }

    /// Allow outbound traffic.
    pub fn enable(&mut self)
        ensures
            final(self)@,
    {
        self.enabled = true;
    }

    /// Stop all outbound traffic.
    pub fn disable(&mut self)
        ensures
            !final(self)@,
    {
        self.enabled = false;
    }
}

} // verus!
