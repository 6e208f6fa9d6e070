//! A small HTTP file server library: serves static files from a configured
//! web root, falling back to `index.html` for unknown paths so a client-side
//! router can take over, with an optional per-request delay for latency
//! testing of clients.
//!
//! This crate holds the request-handling model: configuration defaulting,
//! URL routing, delay parsing, path resolution with the fallback rule, and
//! the CORS policy constants. The HTTP listener, the filesystem and the
//! timer are collaborators that a thin binary wires around it.

pub mod config;
pub mod cors;
pub mod delay;
pub mod paths;
pub mod plan;
pub mod route;
