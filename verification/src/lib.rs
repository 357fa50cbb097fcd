//! Core logic of a small SIEM back end: the data model, the detection rule
//! applied to incoming security events, the bearer-token guard, the replies of
//! the HTTP API, the cursor of the event-stream consumer and the service
//! configuration. Network, database and stream I/O live in the application
//! around this library.

pub mod models;
pub mod cache;
pub mod ids;
pub mod detection;
pub mod auth;
pub mod config;
pub mod consumer;
pub mod api;
