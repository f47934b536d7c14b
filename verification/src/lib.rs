//! The rules of an agent daemon: how a session delegates work to subagents and
//! adjacent sessions, controls them, hands their results over, and how the
//! daemon's own configuration, credentials and history operations behave.
//!
//! Nothing here performs I/O. A request handler loads what a function asks for,
//! hands it in as plain values, and carries out what comes back.
pub mod adjacent_sessions;
pub mod artifacts;
pub mod auth;
pub mod browser_websocket;
pub mod codec;
pub mod config;
pub mod delegation_context;
pub mod delegation_list;
pub mod delegation_runner;
pub mod delegation_snapshot;
pub mod delegation_tools;
pub mod handoff;
pub mod handoff_read;
pub mod history;
pub mod history_fork;
pub mod interop;
pub mod json;
pub mod paths;
pub mod records;
pub mod subagent_control;
pub mod text;
pub mod transcript;
pub mod types;
