//! Planning and supervision of short-lived chains of external commands.
//!
//! The library decides; it never touches a process itself. It assembles
//! argument vectors, lays out the stages of a pipe chain, tells its caller
//! which process to launch, drain or wait on next, and classifies the exit
//! status that comes back.

pub mod args;
pub mod chain;
pub mod cli;
pub mod commands;
pub mod git;
pub mod run;
pub mod status;
