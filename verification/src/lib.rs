//! A process-group launcher for the game `th123`.
//!
//! The launcher starts the game together with optional helper tools,
//! groups every spawned process under one kernel job handle whose policy
//! is "kill all members on close", waits for the game to exit, and then
//! releases the group so that surviving helpers are terminated too.
//!
//! This crate holds the verified core: path resolution, the process-group
//! bookkeeping, and the launch/supervision decisions. The thin platform
//! binding (process creation, the kernel job object, the message box)
//! lives outside and consults this core at every step.

pub mod group;
pub mod laws;
pub mod paths;
pub mod supervisor;
