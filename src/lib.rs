//! An interactive client for a remote to-do service: ordering and rendering
//! of the fetched records, command completion, and the session's decisions.
pub mod command;
pub mod completer;
pub mod config;
pub mod handlers;
pub mod ordering;
pub mod render;
pub mod repl;
pub mod types;
