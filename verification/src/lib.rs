//! Core logic of a meta package manager: the workflow engine that drives each
//! detected package manager through its upgrade stages, the state machine of
//! the interactive monitor, and the reporting that follows a run.
//!
//! Everything here is deterministic and verified. Process spawning, terminal
//! drawing and file access live outside the library and feed it plain values.

pub mod config;
pub mod detect;
pub mod engine;
pub mod monitor;
pub mod notify;
pub mod render;
pub mod runner;
pub mod schedule;
pub mod status;
pub mod summary;
pub mod text;
