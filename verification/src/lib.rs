//! Orchestration core for a single-node daemon that manages ephemeral and
//! persistent game-server processes: an instance registry with a port
//! allocator, a heartbeat-based liveness protocol, snapshot/restore of
//! persistent instance definitions, and the binary-provisioning strategy
//! that resolves which server artifact a given instance needs.
//!
//! The daemon's control surface (HTTP transport), file and network I/O and
//! process control live outside this crate; this crate holds the decisions
//! and the data they act on, each behind a verified contract.

pub mod daemon;
pub mod errors;
pub mod heartbeat;
pub mod instance;
pub mod loader;
pub mod minecraft_loader;
pub mod minecraft_version;
pub mod probe;
pub mod strutil;

use vstd::prelude::*;

verus! {

/// Seconds of heartbeat silence after which an instance is declared dead.
pub const HEARTBEAT_WINDOW_SECS: u64 = 10;

} // verus!
