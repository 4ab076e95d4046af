//! The WebSocket transport's logic: its mode, its connection state, the
//! queue of received text messages, and what it does with each frame.

use vstd::prelude::*;
use std::collections::VecDeque;
use crate::error::MCPError;
use crate::text::{owned, concat2};
use crate::transport::connection::Connection;
use crate::transport::endpoint::{ParsedUrl, url_parse, parse_url};

verus! {

/// The mathematical form of a [`WebSocketTransport`].
pub struct WebSocketView {
    pub uri: Seq<char>,
    pub is_server: bool,
    pub connected: bool,
    /// The text messages received and not yet taken, oldest first.
    pub queue: Seq<Seq<char>>,
}

/// A WebSocket transport: the URI it connects to (or, as a server, binds),
/// its mode, whether it runs, and the text messages waiting to be received.
pub struct WebSocketTransport {
    uri: String,
    is_server: bool,
    connection: Connection,
    queue: VecDeque<String>,
}

/// The views of a queue of strings.
pub open spec fn texts(q: Seq<String>) -> Seq<Seq<char>> {
    q.map_values(|s: String| s@)
}

impl View for WebSocketTransport {
    type V = WebSocketView;

    closed spec fn view(&self) -> WebSocketView {
        WebSocketView {
            uri: self.uri@,
            is_server: self.is_server,
            connected: self.connection.connected(),
            queue: texts(self.queue@),
        }
    }
}

/// A frame read from the socket, or the end of the stream.
#[derive(Debug)]
pub enum Frame {
    /// A text frame.
    Text(String),
    /// A binary frame of the given length.
    Binary(usize),
    /// A ping or pong frame.
    Control,
    /// A close frame.
    Close,
    /// A read error; the text is its message.
    Error(String),
    /// The stream ended.
    End,
}

/// Whether the reader goes on after a frame: it stops at a close frame, an
/// error and the end of the stream.
pub open spec fn keeps_reading(f: Frame) -> bool {
    match f {
        Frame::Text(_) | Frame::Binary(_) | Frame::Control => true,
        _ => false,
    }
}

/// How the transport starts.
#[derive(Debug)]
pub enum StartPlan {
    /// It is already running: nothing to do.
    AlreadyRunning,
    /// Listen on the URI (a `host:port` address) and accept one connection.
    Listen(String),
    /// Connect to the parsed URL.
    Connect(ParsedUrl),
}

/// The error a closed transport's send and receive fail with.
pub open spec fn ws_not_connected<T>(r: Result<T, MCPError>) -> bool {
    r matches Err(MCPError::Transport(m)) && m@ == "WebSocket transport not connected"@
}

/// Where a client connects, from its URI as the parser read it: the parsed
/// URL, or, with the parser's error message, a transport error.
pub fn connect_target(parsed: Result<ParsedUrl, String>) -> (res: Result<ParsedUrl, MCPError>)
    ensures
        match parsed {
            Ok(u) => res matches Ok(p) && p@ == u@,
            Err(e) => res matches Err(MCPError::Transport(m)) && m@ == "Invalid WebSocket URL: "@ + e@,
        },
{
    match parsed {
        Ok(u) => Ok(u),
        Err(e) => Err(MCPError::Transport(concat2("Invalid WebSocket URL: ", e.as_str()))),
    }
}

impl WebSocketTransport {
    /// A client transport for `uri`, not yet connected, with no message.
    pub fn new(uri: &str) -> (res: Self)
        ensures
            res@ == (WebSocketView { uri: uri@, is_server: false, connected: false, queue: seq![] }),
    {
        let t = WebSocketTransport {
            uri: owned(uri),
            is_server: false,
            connection: Connection::new(),
            queue: VecDeque::new(),
        };
        assert(texts(t.queue@) =~= seq![]);
        t
    }

    /// A server transport that binds `uri`, not yet running, with no message.
    pub fn new_server(uri: &str) -> (res: Self)
        ensures
            res@ == (WebSocketView { uri: uri@, is_server: true, connected: false, queue: seq![] }),
    {
        let mut t = Self::new(uri);
        t.is_server = true;
        t
    }

    /// Whether the transport runs.
    pub fn is_connected(&self) -> (res: bool)
        ensures
            res == self@.connected,
    {
        self.connection.is_connected()
    }

    /// Whether the transport is a server.
    pub fn is_server(&self) -> (res: bool)
        ensures
            res == self@.is_server,
    {
        self.is_server
    }

    /// The URI of the transport.
    pub fn uri(&self) -> (res: &str)
        ensures
            res@ == self@.uri,
    {
        self.uri.as_str()
    }

    /// How the transport starts: nothing when it runs; a server listens on
    /// its URI; a client connects to its URI, which must parse as a URL.
    pub fn start_plan(&self) -> (res: Result<StartPlan, MCPError>)
        ensures
            self@.connected ==> res matches Ok(StartPlan::AlreadyRunning),
            !self@.connected && self@.is_server ==> (res matches Ok(StartPlan::Listen(a)) && a@
                == self@.uri),
            !self@.connected && !self@.is_server ==> match url_parse(self@.uri) {
                Ok(u) => res matches Ok(StartPlan::Connect(p)) && p@ == u,
                Err(e) => res matches Err(MCPError::Transport(m)) && m@ == "Invalid WebSocket URL: "@
                    + e,
            },
    {
        if self.connection.is_connected() {
            Ok(StartPlan::AlreadyRunning)
        } else if self.is_server {
            Ok(StartPlan::Listen(self.uri.clone()))
        } else {
            self.send_url()
        }
    }

    /// The URL a message is sent to, each send on a connection of its own;
    /// fails when the URI does not parse.
    fn send_url(&self) -> (res: Result<StartPlan, MCPError>)
        ensures
            match url_parse(self@.uri) {
                Ok(u) => res matches Ok(StartPlan::Connect(p)) && p@ == u,
                Err(e) => res matches Err(MCPError::Transport(m)) && m@ == "Invalid WebSocket URL: "@
                    + e,
            },
    {
        match connect_target(parse_url(self.uri.as_str())) {
            Ok(u) => Ok(StartPlan::Connect(u)),
            Err(e) => Err(e),
        }
    }

    /// The connection a message or the close frame is sent on: fails when
    /// the transport does not run, or when its URI does not parse.
    pub fn send_plan(&self) -> (res: Result<ParsedUrl, MCPError>)
        ensures
            !self@.connected ==> ws_not_connected(res),
            self@.connected ==> match url_parse(self@.uri) {
                Ok(u) => res matches Ok(p) && p@ == u,
                Err(e) => res matches Err(MCPError::Transport(m)) && m@ == "Invalid WebSocket URL: "@
                    + e,
            },
    {
        if !self.connection.is_connected() {
            return Err(MCPError::Transport(owned("WebSocket transport not connected")));
        }
        match self.send_url() {
            Ok(StartPlan::Connect(u)) => Ok(u),
            Ok(_) => Err(MCPError::Transport(owned("WebSocket transport not connected"))),
            Err(e) => Err(e),
        }
    }

    /// Marks the transport running, once it has connected or accepted.
    pub fn mark_started(&mut self)
        ensures
            final(self)@ == (WebSocketView { connected: true, ..old(self)@ }),
    {
        self.connection.mark_started();
    }

    /// Marks the transport closed; tells whether it was running, that is
    /// whether the close frame is sent, the reader stopped and the close
    /// callback run.
    pub fn mark_closed(&mut self) -> (was_connected: bool)
        ensures
            was_connected == old(self)@.connected,
            final(self)@ == (WebSocketView { connected: false, ..old(self)@ }),
    {
        self.connection.mark_closed()
    }

    /// Handles a frame from the socket: a text frame joins the end of the
    /// queue; others leave it as it is. Tells whether the reader goes on.
    pub fn on_frame(&mut self, frame: Frame) -> (go_on: bool)
        ensures
            go_on == keeps_reading(frame),
            final(self)@ == (WebSocketView {
                queue: match frame {
                    Frame::Text(t) => old(self)@.queue.push(t@),
                    _ => old(self)@.queue,
                },
                ..old(self)@
            }),
    {
        match frame {
            Frame::Text(t) => {
                let ghost q = self.queue@;
                self.queue.push_back(t);
                assert(texts(self.queue@) =~= texts(q).push(self.queue@.last()@));
                true
            },
            Frame::Binary(_) | Frame::Control => true,
            _ => false,
        }
    }

    /// Takes the oldest waiting message, if there is one; fails when the
    /// transport does not run.
    pub fn take_message(&mut self) -> (res: Result<Option<String>, MCPError>)
        ensures
            !old(self)@.connected ==> ws_not_connected(res) && final(self)@ == old(self)@,
            old(self)@.connected && old(self)@.queue.len() == 0 ==> (res matches Ok(None))
                && final(self)@ == old(self)@,
            old(self)@.connected && old(self)@.queue.len() > 0 ==> (res matches Ok(Some(m)) && m@
                == old(self)@.queue[0]) && final(self)@ == (WebSocketView {
                queue: old(self)@.queue.drop_first(),
                ..old(self)@
            }),
    {
        if !self.connection.is_connected() {
            return Err(MCPError::Transport(owned("WebSocket transport not connected")));
        }
        let ghost q = self.queue@;
        let m = self.queue.pop_front();
        proof {
            if q.len() > 0 {
                assert(texts(self.queue@) =~= texts(q).drop_first());
            }
        }
        Ok(m)
    }

    /// A transport with the same URI, mode and state, and an empty queue of
    /// its own.
    pub fn copy(&self) -> (res: Self)
        ensures
            res@ == (WebSocketView { queue: seq![], ..self@ }),
    {
        let mut connection = Connection::new();
        if self.connection.is_connected() {
            connection.mark_started();
        }
        let t = WebSocketTransport {
            uri: self.uri.clone(),
            is_server: self.is_server,
            connection,
            queue: VecDeque::new(),
        };
        assert(texts(t.queue@) =~= seq![]);
        t
    }
}

impl Clone for WebSocketTransport {
    /// A transport with the same URI, mode and state, and an empty queue.
    fn clone(&self) -> (res: Self)
        ensures
            res@ == (WebSocketView { queue: seq![], ..self@ }),
    {
        self.copy()
    }
}

/// The queue after text frames `ts` arrive, in order, at queue `q`.
pub open spec fn after_texts(q: Seq<Seq<char>>, ts: Seq<Seq<char>>) -> Seq<Seq<char>>
    decreases ts.len(),
{
    if ts.len() == 0 {
        q
    } else {
        after_texts(q.push(ts[0]), ts.drop_first())
    }
}

/// What `n` takes from queue `q` give, in order (a take from an empty queue
/// gives nothing).
pub open spec fn taken(q: Seq<Seq<char>>, n: nat) -> Seq<Seq<char>>
    decreases n,
{
    if n == 0 || q.len() == 0 {
        seq![]
    } else {
        seq![q[0]] + taken(q.drop_first(), (n - 1) as nat)
    }
}

proof fn lemma_after_texts(q: Seq<Seq<char>>, ts: Seq<Seq<char>>)
    ensures
        after_texts(q, ts) == q + ts,
    decreases ts.len(),
{
    if ts.len() > 0 {
        lemma_after_texts(q.push(ts[0]), ts.drop_first());
        assert(q.push(ts[0]) + ts.drop_first() =~= q + ts);
    } else {
        assert(q + ts =~= q);
    }
}

proof fn lemma_taken_all(q: Seq<Seq<char>>)
    ensures
        taken(q, q.len()) == q,
    decreases q.len(),
{
    if q.len() > 0 {
        lemma_taken_all(q.drop_first());
        assert(seq![q[0]] + q.drop_first() =~= q);
    } else {
        assert(q =~= seq![]);
    }
}

/// The queue is first in, first out: after text frames `ts` arrive at a
/// queue holding `q`, taking every message gives those of `q`, then those of
/// `ts`, each in the order it arrived.
pub proof fn lemma_queue_fifo(q: Seq<Seq<char>>, ts: Seq<Seq<char>>)
    ensures
        taken(after_texts(q, ts), q.len() + ts.len()) == q + ts,
{
    lemma_after_texts(q, ts);
    lemma_taken_all(q + ts);
}

} // verus!
