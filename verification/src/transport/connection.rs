//! The connection state every transport keeps: started or not.

use vstd::prelude::*;
use crate::error::MCPError;
use crate::text::concat2;

verus! {

/// Whether a transport is connected. Starting an already started transport
/// and closing a closed one change nothing.
pub struct Connection {
    connected: bool,
}

impl Connection {
    /// Whether the transport is connected.
    pub closed spec fn connected(&self) -> bool {
        self.connected
    }

    /// A transport that has not been started.
    pub fn new() -> (res: Self)
        ensures
            !res.connected(),
    {
        Connection { connected: false }
    }

    /// Whether the transport is connected.
    pub fn is_connected(&self) -> (res: bool)
        ensures
            res == self.connected(),
    {
        self.connected
    }

    /// Marks the transport as started.
    pub fn mark_started(&mut self)
        ensures
            final(self).connected(),
    {
        self.connected = true;
    }

    /// Marks the transport as closed; tells whether it was connected, that
    /// is whether closing had anything to do (and the close callback runs).
    pub fn mark_closed(&mut self) -> (was_connected: bool)
        ensures
            was_connected == old(self).connected(),
            !final(self).connected(),
    {
        let was = self.connected;
        self.connected = false;
        was
    }

    /// Succeeds when the transport is connected; otherwise fails with a
    /// transport error `<name> not connected`.
    pub fn require_connected(&self, name: &str) -> (res: Result<(), MCPError>)
        ensures
            self.connected() ==> res is Ok,
            !self.connected() ==> (res matches Err(MCPError::Transport(m)) && m@ == name@
                + " not connected"@),
    {
        if self.connected {
            Ok(())
        } else {
            Err(MCPError::Transport(concat2(name, " not connected")))
        }
    }
}

} // verus!
