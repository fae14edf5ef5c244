//! State-access caches for an EVM sandbox that forks from a remote node:
//! a code-presence cache, a per-source environment cache, an access
//! recorder with its replay planner, and the fork-environment builder.
//!
//! Nothing in this crate performs I/O. Every operation that needs the
//! remote provider is split into a step that decides what to fetch and a
//! step that takes what was fetched.

pub mod primitives;
pub mod error;
pub mod data_access;
pub mod collections;
pub mod code_cache;
pub mod environment_cache;
pub mod recorder;
pub mod replay;
pub mod fork_init;
