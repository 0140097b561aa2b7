//! Dual-transport resilient connection bridge core.
//!
//! Normalizes two structurally different control protocols — a line-oriented
//! TCP protocol and a JSON-over-WebSocket plugin protocol with an
//! authentication handshake — into one event stream, and routes commands
//! back to whichever transport is live. This crate holds the decisions:
//! frame decoding, reconnect backoff, connection-state guarding, command
//! dispatch and the two supervisor state machines. The surrounding
//! application owns the sockets and timers and performs the actions the
//! machines demand.

pub mod auth;
pub mod backoff;
pub mod decoder;
pub mod events;
pub mod line_supervisor;
pub mod state;
pub mod ws_supervisor;
