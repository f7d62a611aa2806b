//! A per-user manager of external tools: which release of a tool is the latest,
//! which of its assets to fetch, how an install proceeds step by step, how an
//! archive is unpacked, and what is recorded as installed.
//!
//! The library performs no network exchange, writes no file and starts no
//! process. Each operation that needs the outside world is a walk through
//! states: the library names the next action, the host performs it and hands
//! the outcome back. The one thing the library asks the machine itself is where
//! the user's home directory lies.

pub mod archive;
pub mod config;
pub mod extract;
pub mod failure;
pub mod fetch;
pub mod install;
pub mod paths;
pub mod release;
pub mod shell;
pub mod status;
pub mod text;
pub mod tools;
