//! The two flags that gate outbound traffic: where they stand at first, and
//! what moves them.

use vstd::prelude::*;

use crate::domain::auth_state::AuthState;
use crate::domain::spotify_toggle::SpotifyToggle;

verus! {

/// At first the owner need not authorize again, and traffic is allowed.
pub proof fn at_first_all_is_well(state: AuthState, toggle: SpotifyToggle)
    requires
        call_ensures(AuthState::new, (), state) || call_ensures(AuthState::default, (), state),
        call_ensures(SpotifyToggle::new, (), toggle) || call_ensures(
            SpotifyToggle::default,
            (),
            toggle,
        ),
    ensures
        !state@,
        toggle@,
{
}

/// A flag is read as it stands.
pub proof fn flags_are_read_as_they_stand(
    state: &AuthState,
    toggle: &SpotifyToggle,
    needs: bool,
    enabled: bool,
)
    requires
        call_ensures(AuthState::needs_reauth, (state,), needs),
        call_ensures(SpotifyToggle::is_enabled, (toggle,), enabled),
    ensures
        needs == state@,
        enabled == toggle@,
{
}

/// A rejected refresh raises the flag.
pub proof fn a_rejection_raises_the_flag(state: &mut AuthState)
    requires
        call_ensures(AuthState::set_needs_reauth, (state,), ()),
    ensures
        final(state)@,
{
}

/// An authorization lowers it.
pub proof fn an_authorization_lowers_it(state: &mut AuthState)
    requires
        call_ensures(AuthState::clear, (state,), ()),
    ensures
        !final(state)@,
{
}

/// The switch is put on.
pub proof fn the_switch_is_put_on(toggle: &mut SpotifyToggle)
    requires
        call_ensures(SpotifyToggle::enable, (toggle,), ()),
    ensures
        final(toggle)@,
{
}

/// The switch is put off.
pub proof fn the_switch_is_put_off(toggle: &mut SpotifyToggle)
    requires
        call_ensures(SpotifyToggle::disable, (toggle,), ()),
    ensures
        !final(toggle)@,
{
}

} // verus!
