//! The stdio transport's logic: its connection state and how a message is
//! framed on standard output.

use vstd::prelude::*;
use crate::error::MCPError;
use crate::text::{owned, concat2};
use crate::transport::connection::Connection;

verus! {

/// A transport over standard input and output: one JSON message per line.
pub struct StdioTransport {
    connection: Connection,
}

impl StdioTransport {
    /// Whether the transport has been started and not closed.
    pub closed spec fn connected(&self) -> bool {
        self.connection.connected()
    }

    /// A transport that has not been started.
    pub fn new() -> (res: Self)
        ensures
            !res.connected(),
    {
        StdioTransport { connection: Connection::new() }
    }

    /// Whether the transport has been started and not closed.
    pub fn is_connected(&self) -> (res: bool)
        ensures
            res == self.connected(),
    {
        self.connection.is_connected()
    }

    /// Starts the transport; starting a started one changes nothing.
    pub fn start(&mut self)
        ensures
            final(self).connected(),
    {
        self.connection.mark_started();
    }

    /// Closes the transport; tells whether it was started, that is whether
    /// the close callback runs.
    pub fn close(&mut self) -> (was_connected: bool)
        ensures
            was_connected == old(self).connected(),
            !final(self).connected(),
    {
        self.connection.mark_closed()
    }

    /// Whether a message may be sent or received: fails while the transport
    /// is not started.
    pub fn check_connected(&self) -> (res: Result<(), MCPError>)
        ensures
            self.connected() ==> res is Ok,
            !self.connected() ==> (res matches Err(MCPError::Transport(m)) && m@
                == "Transport not connected"@),
    {
        if self.connection.is_connected() {
            Ok(())
        } else {
            Err(MCPError::Transport(owned("Transport not connected")))
        }
    }

    /// A transport in the same state.
    pub fn copy(&self) -> (res: Self)
        ensures
            res.connected() == self.connected(),
    {
        let mut c = Connection::new();
        if self.connection.is_connected() {
            c.mark_started();
        }
        StdioTransport { connection: c }
    }
}

impl Default for StdioTransport {
    /// A transport that has not been started.
    fn default() -> (res: Self)
        ensures
            !res.connected(),
    {
        Self::new()
    }
}

/// What is written for a message: its JSON text and a newline.
pub fn frame_line(json: &str) -> (res: String)
    ensures
        res@ == json@ + "\n"@,
{
    concat2(json, "\n")
}

} // verus!
