//! Project discovery and call planning for `nur`, a task runner that reads
//! its tasks from a `nurfile` written in nushell.
//!
//! The library finds the project directory of a call, derives the names of
//! the task files and of the local `.nur` configuration, and decides what a
//! call does (show help, list tasks, run a task or commands, enter a shell)
//! and which error it is answered with.

pub mod disk;
pub mod errors;
pub mod listing;
pub mod names;
pub mod path;
pub mod session;
pub mod state;
pub mod text;
