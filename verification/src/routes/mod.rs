//! What the HTTP endpoints answer: the owner's authorization (`auth`), the
//! owner's kill switch (`admin`), the public data plane (`v1`), and the
//! rules around them.

pub mod admin;
pub mod auth;
pub mod auth_laws;
pub mod cors;
pub mod health;
pub mod plane_laws;
pub mod reply;
pub mod v1;
pub mod wire;
