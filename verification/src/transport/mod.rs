//! The transports' protocol logic: HTTP framing of the SSE transport, its
//! sessions, the SSE client's configuration, event handling and reconnection
//! policy, the SSE server's state, the WebSocket transport's message queue,
//! the stdio transport's framing, and the connection state every transport
//! keeps.

pub mod connection;
pub mod endpoint;
pub mod http;
pub mod session;
pub mod stdio;
pub mod sse_client;
pub mod sse_server;
pub mod websocket;
