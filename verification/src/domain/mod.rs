//! Domain types: the owner's tokens, the failures of the services around
//! them, and the two flags that gate outbound traffic.

pub mod auth_state;
pub mod flag_laws;
pub mod oauth_client;
pub mod spotify;
pub mod spotify_toggle;
pub mod tokens;
