//! Workflows over git: merging a range of commits into one, squashing the
//! last commits in an interactive rebase, resetting softly to the remote
//! branch, rebasing onto an upstream, and a health check of what all of that
//! leans on.
//!
//! The library decides; it runs nothing itself. Each workflow is a state
//! machine: a state names the one request it waits on (run a command, ask the
//! user, print a line, finish), and the answer to that request leads to the
//! next state. What the workflows promise is stated and proved over the runs
//! of those machines.

pub mod commands;
pub mod text;
pub mod workflow;
