//! Verified core of a native WebSocket client and server bridge.
//!
//! The library holds the decisions of the bridge: how outgoing calls turn into
//! WebSocket messages, which requests are refused and why, how a running
//! connection reacts to what it reads and writes, how peers are registered and
//! numbered, and how close events are reported.
pub mod types;
pub mod message;
pub mod request;
pub mod session;
pub mod client;
pub mod server;
pub mod laws;
