//! Model Context Protocol (MCP) for Rust: the protocol logic, verified.
//!
//! The crate holds the parts of an MCP implementation that decide and compute:
//! the JSON value model and JSON-RPC message shapes, the server's request
//! dispatch, the client's request and response handling, the SSE transport's
//! HTTP framing and session routing, the transports' connection states, the
//! WebSocket message queue and the SSE client's reconnection policy, the
//! project generator's naming and template rules, and the command line's
//! decisions. Sockets, stdio, timers and tasks live with the caller.

pub mod constants;
pub mod text;
pub mod json;
pub mod error;
pub mod jsonrpc;
pub mod schema;
pub mod server;
pub mod client;
pub mod transport;
pub mod generator;
pub mod templates;
pub mod cli;
