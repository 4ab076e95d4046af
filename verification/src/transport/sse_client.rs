//! The client side of the SSE transport: its settings, what it does with
//! each event the server streams, when it sends, and when it stops trying to
//! reconnect.

use vstd::prelude::*;
use std::time::Duration;
use crate::error::MCPError;
use crate::text::{owned, concat2, str_eq};
use crate::transport::connection::Connection;
use crate::transport::endpoint::{ParsedUrl, UrlParts, url_parse, parse_url};

verus! {

/// The `Duration` that `Duration::from_secs` makes of a number of seconds.
pub uninterp spec fn duration_of_secs(secs: u64) -> Duration;

/// Makes a `Duration` of whole seconds with `std::time::Duration::from_secs`;
/// the result is named by [`duration_of_secs`].
#[verifier::external_body]
fn duration_from_secs(secs: u64) -> (res: Duration)
    ensures
        res == duration_of_secs(secs),
{
    Duration::from_secs(secs)
}

/// The mathematical form of an [`SSEClientTransport`].
pub struct SseClientView {
    pub url: UrlParts,
    pub send_url: Option<UrlParts>,
    pub auth_token: Option<Seq<char>>,
    pub reconnect_secs: u64,
    pub max_reconnect_attempts: u32,
    pub connected: bool,
}

/// An SSE client: the URL it reads events from, the URL the server told it
/// to post to, its bearer token and its reconnection settings.
pub struct SSEClientTransport {
    url: ParsedUrl,
    send_url: Option<ParsedUrl>,
    auth_token: Option<String>,
    reconnect_secs: u64,
    max_reconnect_attempts: u32,
    connection: Connection,
}

impl View for SSEClientTransport {
    type V = SseClientView;

    closed spec fn view(&self) -> SseClientView {
        SseClientView {
            url: self.url@,
            send_url: match self.send_url {
                Some(u) => Some(u@),
                None => None,
            },
            auth_token: match self.auth_token {
                Some(t) => Some(t@),
                None => None,
            },
            reconnect_secs: self.reconnect_secs,
            max_reconnect_attempts: self.max_reconnect_attempts,
            connected: self.connection.connected(),
        }
    }
}

/// What the client does with one event of the stream.
#[derive(Debug)]
pub enum EventAction {
    /// An `endpoint` event named a valid URL: posts now go there.
    EndpointSet,
    /// An `endpoint` event whose data is not a URL; the text is the data.
    InvalidEndpoint(String),
    /// A `message` event, or one without a type: the data is a message.
    Deliver(String),
    /// Any other event type is ignored.
    Ignore,
}

/// The mathematical form of an [`EventAction`].
pub enum EventActionView {
    EndpointSet,
    InvalidEndpoint(Seq<char>),
    Deliver(Seq<char>),
    Ignore,
}

impl View for EventAction {
    type V = EventActionView;

    open spec fn view(&self) -> EventActionView {
        match self {
            EventAction::EndpointSet => EventActionView::EndpointSet,
            EventAction::InvalidEndpoint(d) => EventActionView::InvalidEndpoint(d@),
            EventAction::Deliver(d) => EventActionView::Deliver(d@),
            EventAction::Ignore => EventActionView::Ignore,
        }
    }
}

/// What an event does to the client and what it asks of the caller: an
/// `endpoint` event sets the send URL when its data parses, `message` and
/// untyped events deliver their data, others are ignored.
pub open spec fn on_event_spec(
    before: SseClientView,
    event_type: Seq<char>,
    data: Seq<char>,
) -> (SseClientView, EventActionView) {
    if event_type == "endpoint"@ {
        match url_parse(data) {
            Ok(u) => (SseClientView { send_url: Some(u), ..before }, EventActionView::EndpointSet),
            Err(_) => (before, EventActionView::InvalidEndpoint(data)),
        }
    } else if event_type == "message"@ || event_type.len() == 0 {
        (before, EventActionView::Deliver(data))
    } else {
        (before, EventActionView::Ignore)
    }
}

/// A client that has just been made for the event source `url`: no send URL
/// yet, no token, reconnecting every 3 seconds at most 5 times in a row, not
/// started.
pub open spec fn fresh_client(url: UrlParts) -> SseClientView {
    SseClientView {
        url,
        send_url: None,
        auth_token: None,
        reconnect_secs: 3,
        max_reconnect_attempts: 5,
        connected: false,
    }
}

impl SSEClientTransport {
    /// A client that reads events from `event_source_url`, with no token,
    /// reconnecting every 3 seconds at most 5 times in a row; fails with a
    /// transport error when the URL does not parse.
    pub fn new(event_source_url: &str) -> (res: Result<Self, MCPError>)
        ensures
            match url_parse(event_source_url@) {
                Ok(u) => res matches Ok(t) && t@ == fresh_client(u),
                Err(e) => res matches Err(MCPError::Transport(m)) && m@
                    == "Invalid event source URL: "@ + e,
            },
    {
        Self::from_parsed_url(parse_url(event_source_url))
    }

    /// The client for an event source URL as the parser read it (see
    /// [`SSEClientTransport::new`]): with the parsed URL, a fresh client;
    /// with the parser's error message, a transport error.
    pub fn from_parsed_url(parsed: Result<ParsedUrl, String>) -> (res: Result<Self, MCPError>)
        ensures
            match parsed {
                Ok(u) => res matches Ok(t) && t@ == fresh_client(u@),
                Err(e) => res matches Err(MCPError::Transport(m)) && m@
                    == "Invalid event source URL: "@ + e@,
            },
    {
        match parsed {
            Ok(url) => Ok(SSEClientTransport {
                url,
                send_url: None,
                auth_token: None,
                reconnect_secs: 3,
                max_reconnect_attempts: 5,
                connection: Connection::new(),
            }),
            Err(e) => Err(MCPError::Transport(concat2("Invalid event source URL: ", e.as_str()))),
        }
    }

    /// The same client with a bearer token for its requests.
    pub fn with_auth_token(self, token: &str) -> (res: Self)
        ensures
            res@ == (SseClientView { auth_token: Some(token@), ..self@ }),
    {
        SSEClientTransport { auth_token: Some(owned(token)), ..self }
    }

    /// The same client with another reconnection interval (in seconds) and
    /// limit of consecutive attempts.
    pub fn with_reconnect_params(self, interval_secs: u64, max_attempts: u32) -> (res: Self)
        ensures
            res@ == (SseClientView {
                reconnect_secs: interval_secs,
                max_reconnect_attempts: max_attempts,
                ..self@
            }),
    {
        SSEClientTransport {
            reconnect_secs: interval_secs,
            max_reconnect_attempts: max_attempts,
            ..self
        }
    }

    /// Whether the client has a bearer token.
    pub fn has_auth_token(&self) -> (res: bool)
        ensures
            res == self@.auth_token is Some,
    {
        self.auth_token.is_some()
    }

    /// The client's bearer token, if it has one.
    pub fn get_auth_token(&self) -> (res: Option<&str>)
        ensures
            match self@.auth_token {
                Some(t) => res matches Some(r) && r@ == t,
                None => res is None,
            },
    {
        match &self.auth_token {
            Some(t) => Some(t.as_str()),
            None => None,
        }
    }

    /// The pause between reconnection attempts.
    pub fn get_reconnect_interval(&self) -> (res: Duration)
        ensures
            res == duration_of_secs(self@.reconnect_secs),
    {
        duration_from_secs(self.reconnect_secs)
    }

    /// How many consecutive failed connection attempts the client makes
    /// before it gives up.
    pub fn get_max_reconnect_attempts(&self) -> (res: u32)
        ensures
            res == self@.max_reconnect_attempts,
    {
        self.max_reconnect_attempts
    }

    /// The URL the client reads events from, as the parser writes it.
    pub fn event_source_url(&self) -> (res: &str)
        ensures
            res@ == self@.url.serialization,
    {
        self.url.serialization.as_str()
    }

    /// Whether the client has been started and not closed.
    pub fn is_connected(&self) -> (res: bool)
        ensures
            res == self@.connected,
    {
        self.connection.is_connected()
    }

    /// A copy of the client's settings and state.
    pub fn copy(&self) -> (res: Self)
        ensures
            res@ == self@,
    {
        SSEClientTransport {
            url: self.url.copy(),
            send_url: match &self.send_url {
                Some(u) => Some(u.copy()),
                None => None,
            },
            auth_token: match &self.auth_token {
                Some(t) => Some(t.clone()),
                None => None,
            },
            reconnect_secs: self.reconnect_secs,
            max_reconnect_attempts: self.max_reconnect_attempts,
            connection: if self.connection.is_connected() {
                let mut c = Connection::new();
                c.mark_started();
                c
            } else {
                Connection::new()
            },
        }
    }

    /// Marks the client started; tells whether it was not yet, that is
    /// whether the event reader has to be spawned.
    pub fn begin_start(&mut self) -> (spawn: bool)
        ensures
            spawn == !old(self)@.connected,
            final(self)@ == (SseClientView { connected: true, ..old(self)@ }),
    {
        let spawn = !self.connection.is_connected();
        self.connection.mark_started();
        spawn
    }

    /// Marks the client closed; tells whether it was connected, that is
    /// whether the reader has to be stopped and the close callback run.
    pub fn mark_closed(&mut self) -> (was_connected: bool)
        ensures
            was_connected == old(self)@.connected,
            final(self)@ == (SseClientView { connected: false, ..old(self)@ }),
    {
        self.connection.mark_closed()
    }

    /// The `Authorization` header value of the client's requests:
    /// `Bearer <token>`, when it has a token.
    pub fn authorization(&self) -> (res: Option<String>)
        ensures
            match self@.auth_token {
                Some(t) => res matches Some(h) && h@ == "Bearer "@ + t,
                None => res is None,
            },
    {
        match &self.auth_token {
            Some(t) => Some(concat2("Bearer ", t.as_str())),
            None => None,
        }
    }

    /// Where a message goes: fails when the client is not connected, or
    /// when the server has not yet named its endpoint.
    pub fn send_target(&self) -> (res: Result<String, MCPError>)
        ensures
            !self@.connected ==> (res matches Err(MCPError::Transport(m)) && m@
                == "Transport not connected"@),
            self@.connected && self@.send_url is None ==> (res matches Err(
                MCPError::Transport(m),
            ) && m@ == "Send URL not received from server"@),
            self@.connected && self@.send_url is Some ==> (res matches Ok(u) && u@
                == self@.send_url->0.serialization),
    {
        if !self.connection.is_connected() {
            return Err(MCPError::Transport(owned("Transport not connected")));
        }
        match &self.send_url {
            Some(u) => Ok(u.serialization.clone()),
            None => Err(MCPError::Transport(owned("Send URL not received from server"))),
        }
    }

    /// Whether a message may be received: fails when the client is not
    /// connected.
    pub fn check_receive(&self) -> (res: Result<(), MCPError>)
        ensures
            self@.connected ==> res is Ok,
            !self@.connected ==> (res matches Err(MCPError::Transport(m)) && m@
                == "Transport not connected"@),
    {
        if self.connection.is_connected() {
            Ok(())
        } else {
            Err(MCPError::Transport(owned("Transport not connected")))
        }
    }

    /// Handles one event of the stream (see [`on_event_spec`]).
    pub fn on_event(&mut self, event_type: &str, data: &str) -> (act: EventAction)
        ensures
            (final(self)@, act@) == on_event_spec(old(self)@, event_type@, data@),
    {
        proof {
            reveal_strlit("endpoint");
            reveal_strlit("message");
            reveal_strlit("");
        }
        if str_eq(event_type, "endpoint") {
            self.on_endpoint(parse_url(data), data)
        } else if str_eq(event_type, "message") || str_eq(event_type, "") {
            EventAction::Deliver(owned(data))
        } else {
            assert(event_type@.len() != 0) by {
                if event_type@.len() == 0 {
                    assert(event_type@ =~= ""@);
                }
            }
            EventAction::Ignore
        }
    }

    /// Handles an `endpoint` event whose data `data` the parser read as
    /// `parsed`: a parsed URL becomes the send URL; otherwise the data is
    /// reported as an invalid endpoint.
    pub fn on_endpoint(&mut self, parsed: Result<ParsedUrl, String>, data: &str) -> (act: EventAction)
        ensures
            match parsed {
                Ok(u) => final(self)@ == (SseClientView { send_url: Some(u@), ..old(self)@ })
                    && act is EndpointSet,
                Err(_) => final(self)@ == old(self)@ && act@ == EventActionView::InvalidEndpoint(
                    data@,
                ),
            },
    {
        match parsed {
            Ok(u) => {
                self.send_url = Some(u);
                EventAction::EndpointSet
            },
            Err(_) => EventAction::InvalidEndpoint(owned(data)),
        }
    }

    /// A fresh reconnection counter with the client's limit.
    pub fn reconnect_state(&self) -> (res: ReconnectState)
        ensures
            res@ == (ReconnectView { attempts: 0, max_attempts: self@.max_reconnect_attempts as nat }),
    {
        ReconnectState::new(self.max_reconnect_attempts)
    }
}

impl Clone for SSEClientTransport {
    /// A client with the same settings and state.
    fn clone(&self) -> (res: Self)
        ensures
            res@ == self@,
    {
        self.copy()
    }
}

/// The mathematical form of a [`ReconnectState`].
pub struct ReconnectView {
    pub attempts: nat,
    pub max_attempts: nat,
}

/// The count of consecutive failed connection attempts, against a limit.
pub struct ReconnectState {
    attempts: u32,
    max_attempts: u32,
}

impl View for ReconnectState {
    type V = ReconnectView;

    closed spec fn view(&self) -> ReconnectView {
        ReconnectView { attempts: self.attempts as nat, max_attempts: self.max_attempts as nat }
    }
}

/// Whether a reader in state `s` gives up instead of connecting again.
pub open spec fn gives_up(s: ReconnectView) -> bool {
    s.attempts >= s.max_attempts
}

/// The state after a failed connection attempt.
pub open spec fn after_failure(s: ReconnectView) -> ReconnectView {
    ReconnectView { attempts: s.attempts + 1, ..s }
}

/// The state after `n` failed attempts in a row from `s`.
pub open spec fn after_failures(s: ReconnectView, n: nat) -> ReconnectView
    decreases n,
{
    if n == 0 {
        s
    } else {
        after_failure(after_failures(s, (n - 1) as nat))
    }
}

impl ReconnectState {
    /// No failed attempt yet, with the limit `max_attempts`.
    pub fn new(max_attempts: u32) -> (res: Self)
        ensures
            res@ == (ReconnectView { attempts: 0, max_attempts: max_attempts as nat }),
    {
        ReconnectState { attempts: 0, max_attempts }
    }

    /// Whether the reader gives up: the limit of consecutive failures has
    /// been reached.
    pub fn should_give_up(&self) -> (res: bool)
        ensures
            res == gives_up(self@),
    {
        self.attempts >= self.max_attempts
    }

    /// Counts a failed attempt; only made while the reader has not given up.
    pub fn record_failure(&mut self)
        requires
            !gives_up(old(self)@),
        ensures
            final(self)@ == after_failure(old(self)@),
    {
        self.attempts = self.attempts + 1;
    }

    /// A connection succeeded: the count starts over.
    pub fn record_success(&mut self)
        ensures
            final(self)@ == (ReconnectView { attempts: 0, ..old(self)@ }),
    {
        self.attempts = 0;
    }
}

/// From a fresh counter, the reader makes exactly `max_attempts` failed
/// attempts in a row before it gives up: after `n` failures it has counted
/// `n`, and it gives up exactly when `n` reaches the limit.
pub proof fn lemma_gives_up_after_limit(max_attempts: nat, n: nat)
    requires
        n <= max_attempts,
    ensures
        after_failures(ReconnectView { attempts: 0, max_attempts }, n).attempts == n,
        after_failures(ReconnectView { attempts: 0, max_attempts }, n).max_attempts
            == max_attempts,
        gives_up(after_failures(ReconnectView { attempts: 0, max_attempts }, n)) <==> n
            == max_attempts,
    decreases n,
{
    if n > 0 {
        lemma_gives_up_after_limit(max_attempts, (n - 1) as nat);
    }
}

/// A successful connection undoes any run of failures: the counter is back
/// to where a fresh one starts, whatever failures came before.
pub proof fn lemma_success_resets(s: ReconnectView, n: nat)
    ensures
        (ReconnectView { attempts: 0, ..after_failures(s, n) }) == (ReconnectView {
            attempts: 0,
            max_attempts: s.max_attempts,
        }),
    decreases n,
{
    if n > 0 {
        lemma_success_resets(s, (n - 1) as nat);
    }
}

/// Messages go where the server last said: after an `endpoint` event whose
/// data parses as a URL, the client posts to that URL (when connected), and
/// nothing else about it changes; an `endpoint` event whose data does not
/// parse, or any other event, leaves the target as it was.
pub proof fn lemma_endpoint_sets_target(before: SseClientView, event_type: Seq<char>, data: Seq<char>)
    ensures
        event_type == "endpoint"@ && url_parse(data) is Ok ==> on_event_spec(
            before,
            event_type,
            data,
        ).0 == (SseClientView { send_url: Some(url_parse(data)->Ok_0), ..before }),
        !(event_type == "endpoint"@ && url_parse(data) is Ok) ==> on_event_spec(
            before,
            event_type,
            data,
        ).0 == before,
{
}

} // verus!
