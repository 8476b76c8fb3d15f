//! Synchronisation engine for a remote, permission-scoped course file tree.
//!
//! The library resolves a remote folder hierarchy into a flat list of
//! downloadable resources with filesystem-safe local paths, and decides —
//! deterministically — what to do when a local copy and a remote file
//! disagree on freshness.  The surrounding binary performs the actual
//! network and filesystem work; every decision it acts on is made here.

pub mod conflict;
pub mod decimal;
pub mod download;
pub mod paths;
pub mod schedule;
pub mod rename;
pub mod resolve;
pub mod sanitise;
pub mod strutil;
pub mod times;

use vstd::prelude::*;

verus! {

/// Errors are reported as fixed descriptive messages, one per failure
/// condition.
pub type Error = &'static str;

} // verus!
