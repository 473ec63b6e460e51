//! A JSON-RPC request router with failover.
//!
//! The library holds the decisions of the router: which route serves a
//! method, how one upstream reply is classified, when an endpoint is tried
//! again, skipped or given up on, and which single response is finally sent
//! back. The network calls themselves are made by the caller, which drives
//! the state machine of `proxy::Dispatch` with their outcomes.
pub mod json;
pub mod config;
pub mod message;
pub mod client;
pub mod endpoint;
pub mod proxy;
pub mod policy;

