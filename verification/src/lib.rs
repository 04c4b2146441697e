//! A pluggable credential-testing engine core: a uniform plugin contract that
//! lets protocol probes be driven by an orchestrator which supplies target
//! configuration and candidate credentials, and receives back captured
//! evidence of a successful authentication ("loot") or a typed failure.
//!
//! The orchestration itself (credential generation, scheduling, reporting) and
//! the wire protocols are external collaborators; this crate owns the plugin
//! contract, the registry that makes plugins discoverable by name, and the
//! reference VNC plugin's decision logic.
use vstd::prelude::*;

pub mod creds;
pub mod laws;
pub mod manager;
pub mod session;
pub mod plugin;
pub mod utils;
pub mod vnc;

pub use plugin::Plugin;

verus! {

/// Caller-supplied configuration handed to a plugin's `setup`: at minimum the
/// target specification, a `host` or `host:port` string.
pub struct Options {
    pub target: Option<String>,
}

} // verus!
