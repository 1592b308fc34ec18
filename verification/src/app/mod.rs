//! Application services: what the endpoints serve, when upstream data is
//! fetched, and how a call to the upstream API carries the owner's token.

pub mod activity;
pub mod cache;
pub mod call_laws;
pub mod mapper_laws;
pub mod scheduler;
pub mod scheduler_laws;
pub mod service_laws;
pub mod snapshots;
pub mod spotify_service;
pub mod state_store;
pub mod store_laws;
pub mod v1_mapper;
