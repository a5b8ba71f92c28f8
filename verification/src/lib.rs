//! Payload execution pipeline of a one-shot attack-simulation agent.
//!
//! The library holds everything the agent decides: how a command template is
//! resolved, how a command is handed to a shell, how a finished process is
//! classified, and in which order prerequisites, the payload itself and the
//! cleanup are run and reported. Spawning processes, talking to the
//! controller and reading the environment are left to the caller, which
//! feeds their results back in as plain values.

pub mod api;
pub mod error;
pub mod handle;
pub mod pipeline;
pub mod process;
pub mod resolver;
pub mod text;
