//! Supervisor core for a desktop shell that embeds a backend server process.
//!
//! The library holds the decision logic of the supervisor: resolving
//! platform-specific paths, building the child-process launch specification,
//! the readiness-probe schedule, the lifecycle state machine, and the menu
//! command dispatch. The host binary performs the actual I/O (spawning,
//! TCP probing, window management) and consults this library for every
//! decision.

use vstd::prelude::*;

pub mod commands;
pub mod diag;
pub mod dirs;
pub mod endpoint;
pub mod handle;
pub mod launch;
pub mod lifecycle;
pub mod paths;
pub mod probe;
pub mod strutil;
pub mod zoom;

verus! {

} // verus!
