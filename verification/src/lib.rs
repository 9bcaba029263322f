//! Workspaces of a markdown writer: opening and closing them, launching terminals in them,
//! indexing them in the background, and remembering them and their tabs.
//!
//! The library decides and computes. It reads nothing from disk and starts no program: what was
//! seen on disk comes in as a [`paths::PathProbe`], and what is to be done comes out as a value.

pub mod boundary;
pub mod bootstrap;
pub mod cli;
pub mod error;
pub mod launcher;
pub mod lists;
pub mod paths;
pub mod recents;
pub mod restore;
pub mod session;
pub mod state;
pub mod terminal;
pub mod text;
pub mod window;
pub mod workspace;
