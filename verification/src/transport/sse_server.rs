//! The server side of the SSE transport, routed (`SSEServerTransport`) or
//! read by hand (`SSETransport`): its address, its connection state, where a
//! broadcast or a session's message goes, and where a posted message goes.

use vstd::prelude::*;
use crate::error::MCPError;
use crate::text::{owned, concat2};
use crate::transport::connection::Connection;
use crate::transport::endpoint::{ParsedUrl, UrlParts, url_parse, parse_url, bind_address_spec};
use crate::json::JsonValue;
use crate::transport::http::parsed_view;
use crate::transport::session::{SessionManager, recipient_list};

verus! {

/// The mathematical form of an [`SSEServerTransport`].
pub struct SseServerView {
    pub url: UrlParts,
    pub connected: bool,
}

/// An SSE server: the URL it serves and whether it runs.
pub struct SSEServerTransport {
    url: ParsedUrl,
    connection: Connection,
}

impl View for SSEServerTransport {
    type V = SseServerView;

    closed spec fn view(&self) -> SseServerView {
        SseServerView { url: self.url@, connected: self.connection.connected() }
    }
}

/// The error of an operation that needs a running server.
pub open spec fn not_connected<T>(r: Result<T, MCPError>) -> bool {
    r matches Err(MCPError::Transport(m)) && m@ == "Transport not connected"@
}

impl SSEServerTransport {
    /// A server for `url`, not yet running; fails with a transport error when
    /// the URL does not parse.
    pub fn new(url: &str) -> (res: Result<Self, MCPError>)
        ensures
            match url_parse(url@) {
                Ok(u) => res matches Ok(t) && t@ == (SseServerView { url: u, connected: false }),
                Err(e) => res matches Err(MCPError::Transport(m)) && m@ == "Invalid server URL: "@
                    + e,
            },
    {
        Self::from_parsed_url(parse_url(url))
    }

    /// The server for a URL as the parser read it (see
    /// [`SSEServerTransport::new`]): with the parsed URL, a server not yet
    /// running; with the parser's error message, a transport error.
    pub fn from_parsed_url(parsed: Result<ParsedUrl, String>) -> (res: Result<Self, MCPError>)
        ensures
            match parsed {
                Ok(u) => res matches Ok(t) && t@ == (SseServerView { url: u@, connected: false }),
                Err(e) => res matches Err(MCPError::Transport(m)) && m@ == "Invalid server URL: "@
                    + e@,
            },
    {
        match parsed {
            Ok(u) => Ok(SSEServerTransport { url: u, connection: Connection::new() }),
            Err(e) => Err(MCPError::Transport(concat2("Invalid server URL: ", e.as_str()))),
        }
    }

    /// The address the server listens on: the URL's host and port, with
    /// `127.0.0.1` and 8000 in place of what it lacks.
    pub fn bind_address(&self) -> (res: String)
        ensures
            res@ == bind_address_spec(self@.url),
    {
        self.url.bind_address()
    }

    /// Whether the server runs.
    pub fn is_connected(&self) -> (res: bool)
        ensures
            res == self@.connected,
    {
        self.connection.is_connected()
    }

    /// Marks the server running; tells whether it was not yet, that is
    /// whether the listener has to be started.
    pub fn begin_start(&mut self) -> (spawn: bool)
        ensures
            spawn == !old(self)@.connected,
            final(self)@ == (SseServerView { connected: true, ..old(self)@ }),
    {
        let spawn = !self.connection.is_connected();
        self.connection.mark_started();
        spawn
    }

    /// Marks the server stopped; tells whether it was running, that is
    /// whether shutdown has to be signalled and the close callback run.
    pub fn mark_closed(&mut self) -> (was_connected: bool)
        ensures
            was_connected == old(self)@.connected,
            final(self)@ == (SseServerView { connected: false, ..old(self)@ }),
    {
        self.connection.mark_closed()
    }

    /// Whether messages may be broadcast, sent to a session or received:
    /// fails with a transport error while the server does not run.
    pub fn check_connected(&self) -> (res: Result<(), MCPError>)
        ensures
            self@.connected ==> res is Ok,
            !self@.connected ==> not_connected(res),
    {
        if self.connection.is_connected() {
            Ok(())
        } else {
            Err(MCPError::Transport(owned("Transport not connected")))
        }
    }

    /// A copy of the server's settings and state.
    pub fn copy(&self) -> (res: Self)
        ensures
            res@ == self@,
    {
        let mut connection = Connection::new();
        if self.connection.is_connected() {
            connection.mark_started();
        }
        SSEServerTransport { url: self.url.copy(), connection }
    }
}

/// Where a broadcast goes from a server that is running or not: nowhere
/// while it does not run; nowhere, with the error `closed_message`, while no
/// stream is open; otherwise to the recipients.
fn broadcast_targets_of<S>(
    connected: bool,
    sessions: &SessionManager<S>,
    parsed: Option<&JsonValue>,
    closed_message: &str,
) -> (res: Result<Vec<String>, MCPError>)
    ensures
        !connected ==> not_connected(res),
        connected && sessions.view_map().len() == 0 ==> (res matches Err(MCPError::Transport(m))
            && m@ == closed_message@),
        connected && sessions.view_map().len() > 0 ==> (res matches Ok(v) && recipient_list(
            v@,
            sessions.view_map(),
            parsed_view(parsed),
        )),
{
    if !connected {
        return Err(MCPError::Transport(owned("Transport not connected")));
    }
    if sessions.session_count() == 0 {
        return Err(MCPError::Transport(owned(closed_message)));
    }
    Ok(sessions.broadcast_recipients(parsed))
}

/// The sender of a session, from a server that is running or not.
fn session_target_of<'a, S>(connected: bool, sessions: &'a SessionManager<S>, session_id: &str) -> (res:
    Result<&'a S, MCPError>)
    ensures
        !connected ==> not_connected(res),
        connected && sessions.view_map().contains_key(session_id@) ==> (res matches Ok(s) && *s
            == sessions.view_map()[session_id@]),
        connected && !sessions.view_map().contains_key(session_id@) ==> (res matches Err(
            MCPError::Transport(m),
        ) && m@ == "Session "@ + session_id@ + " not found"@),
{
    if !connected {
        return Err(MCPError::Transport(owned("Transport not connected")));
    }
    match sessions.sender_for(session_id) {
        Ok(s) => Ok(s),
        Err(e) => Err(MCPError::Transport(e)),
    }
}

impl SSEServerTransport {
    /// Where a broadcast message goes: fails while the server does not run,
    /// and, as the broadcast channel has no receiver then, while no stream is
    /// open (`Failed to broadcast message: channel closed`); otherwise to
    /// each open session whose stream passes it on, each once. `parsed` is
    /// the message read as JSON, `None` when it is not JSON.
    pub fn broadcast_targets<S>(&self, sessions: &SessionManager<S>, parsed: Option<&JsonValue>) -> (res:
        Result<Vec<String>, MCPError>)
        ensures
            !self@.connected ==> not_connected(res),
            self@.connected && sessions.view_map().len() == 0 ==> (res matches Err(
                MCPError::Transport(m),
            ) && m@ == "Failed to broadcast message: channel closed"@),
            self@.connected && sessions.view_map().len() > 0 ==> (res matches Ok(v) && recipient_list(
                v@,
                sessions.view_map(),
                parsed_view(parsed),
            )),
    {
        broadcast_targets_of(
            self.connection.is_connected(),
            sessions,
            parsed,
            "Failed to broadcast message: channel closed",
        )
    }

    /// The sender a message for one session goes through: fails while the
    /// server does not run, and for a session that is not open.
    pub fn session_target<'a, S>(&self, sessions: &'a SessionManager<S>, session_id: &str) -> (res:
        Result<&'a S, MCPError>)
        ensures
            !self@.connected ==> not_connected(res),
            self@.connected && sessions.view_map().contains_key(session_id@) ==> (res matches Ok(s)
                && *s == sessions.view_map()[session_id@]),
            self@.connected && !sessions.view_map().contains_key(session_id@) ==> (res matches Err(
                MCPError::Transport(m),
            ) && m@ == "Session "@ + session_id@ + " not found"@),
    {
        session_target_of(self.connection.is_connected(), sessions, session_id)
    }
}

/// The SSE server that reads each connection by hand: the URL it serves and
/// whether it runs.
pub struct SSETransport {
    server: SSEServerTransport,
}

impl View for SSETransport {
    type V = SseServerView;

    closed spec fn view(&self) -> SseServerView {
        self.server@
    }
}

impl SSETransport {
    /// A server for `url`, not yet running; fails with a transport error when
    /// the URL does not parse.
    pub fn new_server(url: &str) -> (res: Result<Self, MCPError>)
        ensures
            match url_parse(url@) {
                Ok(u) => res matches Ok(t) && t@ == (SseServerView { url: u, connected: false }),
                Err(e) => res matches Err(MCPError::Transport(m)) && m@ == "Invalid server URL: "@
                    + e,
            },
    {
        match SSEServerTransport::new(url) {
            Ok(server) => Ok(SSETransport { server }),
            Err(e) => Err(e),
        }
    }

    /// The address the server listens on (see
    /// [`SSEServerTransport::bind_address`]).
    pub fn bind_address(&self) -> (res: String)
        ensures
            res@ == bind_address_spec(self@.url),
    {
        self.server.bind_address()
    }

    /// Whether the server runs.
    pub fn is_connected(&self) -> (res: bool)
        ensures
            res == self@.connected,
    {
        self.server.is_connected()
    }

    /// Marks the server running; tells whether it was not yet.
    pub fn begin_start(&mut self) -> (spawn: bool)
        ensures
            spawn == !old(self)@.connected,
            final(self)@ == (SseServerView { connected: true, ..old(self)@ }),
    {
        self.server.begin_start()
    }

    /// Marks the server stopped; tells whether it was running.
    pub fn mark_closed(&mut self) -> (was_connected: bool)
        ensures
            was_connected == old(self)@.connected,
            final(self)@ == (SseServerView { connected: false, ..old(self)@ }),
    {
        self.server.mark_closed()
    }

    /// Whether messages may be received: fails while the server does not run.
    pub fn check_connected(&self) -> (res: Result<(), MCPError>)
        ensures
            self@.connected ==> res is Ok,
            !self@.connected ==> not_connected(res),
    {
        self.server.check_connected()
    }

    /// Where a broadcast message goes: fails while the server does not run,
    /// and while no stream is open (`Failed to broadcast message`);
    /// otherwise to each open session whose stream passes it on, each once.
    pub fn broadcast_targets<S>(&self, sessions: &SessionManager<S>, parsed: Option<&JsonValue>) -> (res:
        Result<Vec<String>, MCPError>)
        ensures
            !self@.connected ==> not_connected(res),
            self@.connected && sessions.view_map().len() == 0 ==> (res matches Err(
                MCPError::Transport(m),
            ) && m@ == "Failed to broadcast message"@),
            self@.connected && sessions.view_map().len() > 0 ==> (res matches Ok(v) && recipient_list(
                v@,
                sessions.view_map(),
                parsed_view(parsed),
            )),
    {
        broadcast_targets_of(self.server.is_connected(), sessions, parsed, "Failed to broadcast message")
    }

    /// The sender a message for one session goes through: fails while the
    /// server does not run, and for a session that is not open.
    pub fn session_target<'a, S>(&self, sessions: &'a SessionManager<S>, session_id: &str) -> (res:
        Result<&'a S, MCPError>)
        ensures
            !self@.connected ==> not_connected(res),
            self@.connected && sessions.view_map().contains_key(session_id@) ==> (res matches Ok(s)
                && *s == sessions.view_map()[session_id@]),
            self@.connected && !sessions.view_map().contains_key(session_id@) ==> (res matches Err(
                MCPError::Transport(m),
            ) && m@ == "Session "@ + session_id@ + " not found"@),
    {
        session_target_of(self.server.is_connected(), sessions, session_id)
    }
}

impl Clone for SSETransport {
    /// A server with the same URL and state.
    fn clone(&self) -> (res: Self)
        ensures
            res@ == self@,
    {
        SSETransport { server: self.server.copy() }
    }
}

impl Clone for SSEServerTransport {
    /// A server with the same URL and state.
    fn clone(&self) -> (res: Self)
        ensures
            res@ == self@,
    {
        self.copy()
    }
}

/// Whether a message posted with the query's session id goes on to that
/// session's stream as well: when the id is given and the session exists.
pub open spec fn routes_to_session<S>(
    sessions: Map<Seq<char>, S>,
    session_id: Option<Seq<char>>,
) -> bool {
    session_id matches Some(id) && sessions.dom().contains(id)
}

/// Whether a posted message is forwarded to the session named in its query
/// (see [`routes_to_session`]).
pub fn routes_posted_message<S>(
    sessions: &SessionManager<S>,
    session_id: Option<&str>,
) -> (res: bool)
    ensures
        res == routes_to_session(
            sessions.view_map(),
            match session_id {
                Some(s) => Some(s@),
                None => None,
            },
        ),
{
    match session_id {
        Some(id) => sessions.session_exists(id),
        None => false,
    }
}

} // verus!
