//! The owner's kill switch for outbound traffic, gated like the login.

use vstd::prelude::*;

use crate::config::{Config, ConfigView};
use crate::domain::spotify_toggle::SpotifyToggle;
use crate::json::{put, Json, JsonView, Member};
use crate::routes::auth::{self, basic_auth_ok, unauthorized, Credentials};
use crate::routes::reply::{self, json_reply, Reply, ReplyView};

verus! {

/// The response that reports the switch: `{"enabled": ..}`.
pub open spec fn switch_view(enabled: bool) -> ReplyView {
    reply::with_json(200, JsonView::Obj(map!["enabled"@ => JsonView::Bool(enabled)]))
}

/// The response to a request with these credentials that leaves the switch
/// at `enabled`.
pub open spec fn admin_view(
    config: ConfigView,
    auth: Option<Credentials>,
    enabled: bool,
) -> ReplyView {
    if auth::granted(config, auth) {
        switch_view(enabled)
    } else {
        auth::unauthorized_view()
    }
}

/// Where the switch stands after a request with these credentials to put it
/// to `to`.
pub open spec fn switched(
    config: ConfigView,
    auth: Option<Credentials>,
    before: bool,
    to: bool,
) -> bool {
    if auth::granted(config, auth) {
        to
    } else {
        before
    }
}

fn report(enabled: bool) -> (r: Reply)
    ensures
        r@ == switch_view(enabled),
{
    let mut m: Vec<Member> = Vec::new();
    put(&mut m, "enabled", Json::Bool(enabled));
    json_reply(200, Json::Obj(m))
}

/// Report the switch.
pub fn get_spotify(config: &Config, toggle: &SpotifyToggle, auth: &Option<Credentials>) -> (r:
    Reply)
    ensures
        r@ == admin_view(config@, *auth, toggle@),
{
    if !basic_auth_ok(config, auth) {
        return unauthorized();
    }
    report(toggle.is_enabled())
}

/// Allow outbound traffic. Without valid credentials the switch stays as it
/// is.
pub fn enable_spotify(
    config: &Config,
    toggle: &mut SpotifyToggle,
    auth: &Option<Credentials>,
) -> (r: Reply)
    ensures
        r@ == admin_view(config@, *auth, true),
        final(toggle)@ == switched(config@, *auth, old(toggle)@, true),
{
    if !basic_auth_ok(config, auth) {
        return unauthorized();
    }
    toggle.enable();
    report(true)
}

/// Stop outbound traffic. Without valid credentials the switch stays as it
/// is.
pub fn disable_spotify(
    config: &Config,
    toggle: &mut SpotifyToggle,
    auth: &Option<Credentials>,
) -> (r: Reply)
    ensures
        r@ == admin_view(config@, *auth, false),
        final(toggle)@ == switched(config@, *auth, old(toggle)@, false),
{
    if !basic_auth_ok(config, auth) {
        return unauthorized();
    }
    toggle.disable();
    report(false)
}

/// Nobody moves the switch without the owner's credentials.
pub proof fn only_the_owner_switches(
    config: ConfigView,
    auth: Option<Credentials>,
    before: bool,
    to: bool,
)
    requires
        switched(config, auth, before, to) != before,
    ensures
        auth::granted(config, auth),
{
}

/// To send the same request again changes nothing more.
pub proof fn switching_is_idempotent(
    config: ConfigView,
    auth: Option<Credentials>,
    before: bool,
    to: bool,
)
    ensures
        switched(config, auth, switched(config, auth, before, to), to) == switched(
            config,
            auth,
            before,
            to,
        ),
{
}

} // verus!
