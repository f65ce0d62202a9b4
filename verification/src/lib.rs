//! A developer-task runner library: it parses a command line into a fixed,
//! closed set of maintenance tasks, expands each task into the external-tool
//! commands it stands for, and decides, outcome by outcome, how a run of
//! those commands proceeds.
//!
//! The library itself never spawns a process, reads a directory or touches
//! the environment: it works on plain values (argument vectors, directory
//! models, spawn outcomes) and leaves the actual input and output to the
//! binary built around it.

pub mod cli;
pub mod command;
pub mod discover;
pub mod dispatch;
pub mod task;
pub mod text;
