//! Core of a live-preview server: a change signal that wakes every waiting
//! browser session, the per-connection session state machine that forwards a
//! refresh frame on each change, and the two page responders.

pub mod signal;
pub mod session;
pub mod transport;
pub mod text;
pub mod config;
pub mod routes;
