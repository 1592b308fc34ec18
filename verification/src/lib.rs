//! A small service that shows what its owner plays on Spotify.
//!
//! The library holds the rules of the service, free of input and output:
//! what a login and its callback do, how a call recovers from an expired
//! token, when a request is retried, how upstream JSON becomes the payloads
//! of the data plane, and when a scheduler fetches. What alternates between
//! decisions and outside work is a state machine: a step takes the state
//! and what has happened, and gives the next state and what to do.
//!
//! - `config`, `startup`: settings, and the steps up to listening;
//! - `domain`: flags, tokens, errors;
//! - `app`: caches, schedulers, and calls on the owner's behalf;
//! - `infra`: the outbound HTTP stack;
//! - `oauth`, `routes`: what clients are sent and answered;
//! - `json`, `text`, `time`, `random`: the values that all of these share.
//!
//! What holds of the functions of a module for every input stands beside
//! them, or in a module of its own whose name ends in `_laws`.

pub mod app;
pub mod config;
pub mod config_laws;
pub mod domain;
pub mod infra;
pub mod json;
pub mod json_laws;
pub mod oauth;
pub mod oauth_laws;
pub mod random;
pub mod routes;
pub mod startup;
pub mod startup_laws;
pub mod text;
pub mod text_laws;
pub mod time;
pub mod time_laws;
