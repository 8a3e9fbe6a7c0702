//! Mirrors every repository a user owns on a known Git-hosting provider
//! into a set of local bare repositories, keeping the set in sync on
//! repeated runs.
//!
//! The library holds the verified core: recognising a source location,
//! enumerating repositories through each provider's pagination protocol,
//! and planning the sync and prune work. The surrounding binary performs
//! the HTTP calls, runs the external `git` tool, and touches the
//! filesystem, feeding plain values back into the functions here.

pub mod backup;
pub mod git;
pub mod json;
pub mod source;
pub mod source_laws;
mod strutil;
pub mod services;
