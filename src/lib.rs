//! Keeps a target directory filled with scope-prefixed copies of the workflow
//! files of several workspaces.
//!
//! The modules hold the verified core: path naming, the workflow-file check,
//! the configuration rules and the per-workspace synchronisation state machine.
pub mod paths;
pub mod workflow;
pub mod config;
pub mod sync;
pub mod laws;
pub mod engine;
pub mod cli;
