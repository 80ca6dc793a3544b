//! Connection-event instrumentation for a connection-oriented transport
//! engine, together with the specification-target loader that shares its
//! repository.
//!
//! The instrumentation half lets a dispatcher report typed lifecycle events
//! (frames sent and received, packet loss, recovery statistics, closure) for
//! each live connection, and accumulates per-connection statistics in a
//! [`counting::AckContext`]. The target half classifies a specification
//! target string as a local path or a URL, canonicalizes well-known IETF URL
//! forms, and derives the deterministic cache location for fetched documents.

pub mod counting;
pub mod events;
pub mod strutil;
pub mod target;
pub mod trace;
