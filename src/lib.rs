//! safe-kill: safe process termination for automated agents.
//!
//! The library decides, for every termination request, whether it is allowed:
//! suicide prevention, a denylist, an allowlist, process ancestry, and a reduced
//! variant for port-scoped requests. The process table, the sockets bound to a
//! port and the delivery of signals are supplied by the caller as plain values.
pub mod text;
pub mod error;
pub mod signal;
pub mod config;
pub mod process_info;
pub mod ancestry;
pub mod killer;
pub mod port;
pub mod policy;
pub mod cli;
pub mod init;
