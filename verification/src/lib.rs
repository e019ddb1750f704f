//! Core logic of a status-bar daemon: a per-module refresh scheduler with
//! TTL gating, single in-flight probes, timeout-driven resets and
//! stale-value retention, together with the pure renderers that turn each
//! module's accumulated field values into display text.

pub mod click;
pub mod fields;
pub mod handlers;
pub mod numfmt;
pub mod persist;
mod random;
pub mod registry;
pub mod scheduler;
pub mod strutil;
pub mod types;

pub use strutil::str_eq;
