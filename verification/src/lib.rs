//! Core logic of a single-target HTTP forwarding proxy.
//!
//! The library decides, for each inbound request, whether it is forbidden
//! (its path falls under a blocked folder), rejected (its method is neither
//! GET nor POST), or forwarded to the configured upstream; and it rewrites
//! the `Content-Type` header of plain-text upstream responses to declare
//! UTF-8. All decisions are pure functions over plain values, so the
//! surrounding server can apply them to each request independently.

pub mod blocklist;
pub mod config;
pub mod laws;
pub mod model;
pub mod pipeline;

pub use blocklist::is_path_blocked;
pub use config::Config;
