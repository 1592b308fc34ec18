//! Rules of the outbound HTTP stack: when a request is retried and after
//! what wait, what a status means, what is logged.

pub mod client_laws;
pub mod http_logging;
pub mod mock_spotify_client;
pub mod outbound;
pub mod outbound_laws;
pub mod spotify_backoff;
pub mod spotify_client;
pub mod spotify_retry;
pub mod token_exchanger;
pub mod wait_laws;
