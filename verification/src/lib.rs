//! Verified core of a marketplace polling engine.
//!
//! The library holds the pure, stateful heart of a catalog poller: the
//! error classifier, the proxy pool with failure eviction, the session
//! (CSRF token) lifecycle, the item-presence cache that derives "what's
//! new" from successive snapshots, and the per-cycle remediation rules
//! that tie them together. Transport, argument parsing and logging live
//! outside the library and hand it plain values.

pub mod cache;
pub mod classify;
pub mod db;
pub mod errors;
pub mod poller;
pub mod proxy;
pub mod session;
pub mod types;
