//! The worker that polls one management endpoint.
pub mod auth;
pub mod padm_client;
pub mod update;
