//! Start-up and shutdown control for a peer-to-peer runtime that is embedded
//! in a host process.
//!
//! The crate holds the decisions of the embedding: which lifecycle signal is
//! due, what the runtime is asked next, how the answers of concurrent bundle
//! registrations fold into one install request, and when the runtime is shut
//! down. The host performs the requested work and reports what came back.

pub mod config;
pub mod emit;
pub mod error;
pub mod install_activate;
pub mod install_enable;
pub mod embedded_runner;
pub mod traces;
pub mod shutdown;
