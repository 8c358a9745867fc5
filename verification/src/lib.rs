//! Orchestration core for concurrent interactive coding agents that share
//! one git repository.
//!
//! The crate holds the decisions of the orchestrator: the bounded output
//! history of a session, the lifecycle of a session and of the registry
//! that owns the sessions, the steps that provision a worktree, the mapping
//! between runtime and persisted state, and the order in which an
//! orchestration request touches isolation, runtime and store. Every effect
//! on the outside world (terminals, git, the database) is performed by the
//! caller, who reports its outcome back as a plain value.

pub mod agent;
pub mod cli;
pub mod competition;
pub mod config;
pub mod daemon;
pub mod error;
pub mod integration;
pub mod isolation;
pub mod orchestrator;
pub mod runtime;
pub mod state;
pub mod text;
pub mod timestamp;
pub mod tui;
pub mod worktree;

pub use error::RembrandtError;
