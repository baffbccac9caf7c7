//! Orchestration engine for a small local observability stack.
//!
//! The library covers the decisions the orchestrator makes: parsing and
//! normalising endpoint strings, resolving release archives for the host
//! platform, verifying downloaded archives against a checksum listing,
//! generating the scrape configuration, gating backend launches on the
//! proxy's bound address, classifying supervised process outcomes, routing
//! proxied requests, and the priority-ordered shutdown policy.

pub mod text;
pub mod platform;
pub mod endpoint;
pub mod install;
pub mod readiness;
pub mod supervise;
pub mod coordinate;
pub mod proxy;
pub mod config;
pub mod cli;
