//! The core of a command-line assistant for everyday version control.
//!
//! The library decides and the program around it acts. It resolves which
//! backend governs a working tree from the names found in the directories
//! above it, routes an abstract operation to the calls of that backend,
//! composes a commit message step by step, and reads the raw answers of the
//! backend's status queries into a picture of the repository. It never starts
//! a process, never reads a directory and never prints: what is to be run,
//! asked or shown comes back as data.
pub mod action;
pub mod branch;
pub mod cli;
pub mod commit;
pub mod diagnostics;
pub mod diff;
pub mod display;
pub mod error;
pub mod explain;
pub mod healthcheck;
pub mod info;
pub mod process;
pub mod process_commands;
pub mod push;
pub mod resolver;
pub mod stage;
pub mod state;
pub mod text;
pub mod unstage;
pub mod update;
pub mod wizard;
