//! Verified core of the Codex chat-tree overlay: window geometry, the chat-tree
//! model read from the helper app-server, the overlay's runtime decisions and
//! the command-line parsing of the overlay executable.

pub mod model;
pub mod text;
pub mod json;
pub mod bridge;
pub mod window_probe;
pub mod runtime;
pub mod cli;
