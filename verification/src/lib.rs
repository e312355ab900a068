//! Connection lifecycle of a companion client for a game client's local
//! control API.
//!
//! The crate holds the decisions of that lifecycle and proves them: what a
//! sample of the monitored process does to the connection state, how the
//! credentials and the `Authorization` header are derived from the control
//! URL, and how a connection attempt proceeds from the first upgrade to the
//! moment the socket is handed over. Sockets, timers and the process list
//! belong to the program that drives these state machines.

pub mod auth;
pub mod client;
pub mod session;
