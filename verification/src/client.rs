//! The MCP client's side of the protocol: the requests it sends, the ids it
//! gives them, and what it makes of the answers.
//!
//! The transport and the waiting are the caller's part: it sends what the
//! request builders return and hands each answer to the matching `*_outcome`
//! function.

use vstd::prelude::*;
use std::time::Duration;
use crate::constants::{JSONRPC_VERSION, LATEST_PROTOCOL_VERSION};
use crate::error::MCPError;
use crate::json::{Json, JsonValue, json_get, entries_view};
use crate::jsonrpc::{RequestId, Id, JSONRPCMessage, JSONRPCRequest, Message, push_member};
use crate::text::{owned, concat2};

verus! {

/// High-level MCP client: the transport it talks through, the id its next
/// request gets, and how long it waits for an answer.
pub struct Client<T> {
    transport: T,
    next_request_id: i64,
    timeout_duration: Option<Duration>,
}

/// A request with the given id, method and parameters.
pub open spec fn request(id: int, method: Seq<char>, params: Option<Json>) -> Message {
    Message::Request { jsonrpc: JSONRPC_VERSION@, id: Id::Num(id), method, params }
}

/// The parameters of `initialize`: the protocol version the client speaks.
pub open spec fn initialize_params() -> Json {
    Json::Object(seq![("protocol_version"@, Json::Str(LATEST_PROTOCOL_VERSION@))])
}

/// The parameters of a tool call: the tool's name and the call's parameters.
pub open spec fn tool_call_params(name: Seq<char>, params: Json) -> Json {
    Json::Object(seq![("name"@, Json::Str(name)), ("parameters"@, params)])
}

/// What an answer means for a request: a response gives its result; an error
/// response fails with `<context>` followed by `error_text`, the error
/// response's `Debug` text (`JSONRPCError { jsonrpc: .., id: .., error: .. }`);
/// anything else fails as an unexpected response type.
pub open spec fn answer_outcome(m: Message, context: Seq<char>, error_text: Seq<char>) -> Result<Json, Seq<char>> {
    match m {
        Message::Response { result, .. } => Ok(result),
        Message::Error { .. } => Err("Protocol error: "@ + (context + error_text)),
        _ => Err("Protocol error: "@ + "Unexpected response type"@),
    }
}

fn answer(message: JSONRPCMessage, context: &str, error_text: &str) -> (res: Result<JsonValue, MCPError>)
    ensures
        match answer_outcome(message@, context@, error_text@) {
            Ok(j) => res matches Ok(v) && v@ == j,
            Err(e) => res matches Err(x) && x.display() == e,
        },
{
    match message {
        JSONRPCMessage::Response(resp) => Ok(resp.result),
        JSONRPCMessage::Error(_) => Err(MCPError::Protocol(concat2(context, error_text))),
        _ => Err(MCPError::Protocol(owned("Unexpected response type"))),
    }
}

impl<T> Client<T> {
    /// The id the next request gets.
    pub closed spec fn next_id(&self) -> int {
        self.next_request_id as int
    }

    /// How long the client waits for an answer.
    pub closed spec fn timeout(&self) -> Option<Duration> {
        self.timeout_duration
    }

    /// The transport the client talks through.
    pub closed spec fn transport_spec(&self) -> T {
        self.transport
    }

    /// Create a new MCP client with the given transport; its first request
    /// gets the id 1, and it waits without limit.
    pub fn new(transport: T) -> (res: Self)
        ensures
            res.next_id() == 1,
            res.timeout() is None,
            res.transport_spec() == transport,
    {
        Client { transport, next_request_id: 1, timeout_duration: None }
    }

    /// Set a timeout for operations
    pub fn with_timeout(self, duration: Duration) -> (res: Self)
        ensures
            res.timeout() == Some(duration),
            res.next_id() == self.next_id(),
            res.transport_spec() == self.transport_spec(),
    {
        let mut c = self;
        c.timeout_duration = Some(duration);
        c
    }

    /// How long the client waits for an answer.
    pub fn timeout_duration(&self) -> (res: Option<Duration>)
        ensures
            res == self.timeout(),
    {
        self.timeout_duration
    }

    /// Check if the client is connected to the server: whether it has sent
    /// at least one request.
    pub fn is_connected(&self) -> (res: bool)
        ensures
            res == (self.next_id() > 1),
    {
        self.next_request_id > 1
    }

    /// The transport the client talks through.
    pub fn transport_mut(&mut self) -> (res: &mut T)
        ensures
            *res == old(self).transport_spec(),
            final(self).transport_spec() == *final(res),
            final(self).next_id() == old(self).next_id(),
            final(self).timeout() == old(self).timeout(),
    {
        &mut self.transport
    }

    /// The transport the client talks through.
    pub fn transport(&self) -> (res: &T)
        ensures
            *res == self.transport_spec(),
    {
        &self.transport
    }

    /// The id the next request gets.
    pub fn peek_next_request_id(&self) -> (res: i64)
        ensures
            res == self.next_id(),
    {
        self.next_request_id
    }

    /// Take the next request id; ids count up from 1.
    fn next_request_id(&mut self) -> (id: i64)
        requires
            old(self).next_id() < i64::MAX,
        ensures
            id == old(self).next_id(),
            final(self).next_id() == old(self).next_id() + 1,
            final(self).timeout() == old(self).timeout(),
            final(self).transport_spec() == old(self).transport_spec(),
    {
        let id = self.next_request_id;
        self.next_request_id = id + 1;
        id
    }

    /// The `initialize` request, with the next id.
    pub fn initialize_request(&mut self) -> (res: JSONRPCMessage)
        requires
            old(self).next_id() < i64::MAX,
        ensures
            res@ == request(old(self).next_id(), "initialize"@, Some(initialize_params())),
            final(self).next_id() == old(self).next_id() + 1,
            final(self).timeout() == old(self).timeout(),
            final(self).transport_spec() == old(self).transport_spec(),
    {
        let id = self.next_request_id();
        let mut params: Vec<(String, JsonValue)> = Vec::new();
        push_member(&mut params, "protocol_version", JsonValue::from_str(LATEST_PROTOCOL_VERSION));
        let p = JsonValue::Object(params);
        assert(entries_view(params@) =~= seq![("protocol_version"@, Json::Str(LATEST_PROTOCOL_VERSION@))]);
        assert(p@ =~= initialize_params());
        JSONRPCMessage::Request(
            JSONRPCRequest {
                jsonrpc: owned(JSONRPC_VERSION),
                id: RequestId::Number(id),
                method: owned("initialize"),
                params: Some(p),
            },
        )
    }

    /// The request that calls the tool `tool_name` with `params`, with the
    /// next id.
    pub fn tool_call_request(&mut self, tool_name: &str, params: JsonValue) -> (res: JSONRPCMessage)
        requires
            old(self).next_id() < i64::MAX,
        ensures
            res@ == request(
                old(self).next_id(),
                "tool_call"@,
                Some(tool_call_params(tool_name@, params@)),
            ),
            final(self).next_id() == old(self).next_id() + 1,
            final(self).timeout() == old(self).timeout(),
            final(self).transport_spec() == old(self).transport_spec(),
    {
        let id = self.next_request_id();
        let ghost pv = params@;
        let mut obj: Vec<(String, JsonValue)> = Vec::new();
        push_member(&mut obj, "name", JsonValue::from_str(tool_name));
        push_member(&mut obj, "parameters", params);
        let p = JsonValue::Object(obj);
        assert(entries_view(obj@) =~= seq![("name"@, Json::Str(tool_name@)), ("parameters"@, pv)]);
        assert(p@ =~= tool_call_params(tool_name@, pv));
        JSONRPCMessage::Request(
            JSONRPCRequest {
                jsonrpc: owned(JSONRPC_VERSION),
                id: RequestId::Number(id),
                method: owned("tool_call"),
                params: Some(p),
            },
        )
    }

    /// The `shutdown` request, with the next id and no parameters.
    pub fn shutdown_request(&mut self) -> (res: JSONRPCMessage)
        requires
            old(self).next_id() < i64::MAX,
        ensures
            res@ == request(old(self).next_id(), "shutdown"@, None),
            final(self).next_id() == old(self).next_id() + 1,
            final(self).timeout() == old(self).timeout(),
            final(self).transport_spec() == old(self).transport_spec(),
    {
        let id = self.next_request_id();
        JSONRPCMessage::Request(
            JSONRPCRequest {
                jsonrpc: owned(JSONRPC_VERSION),
                id: RequestId::Number(id),
                method: owned("shutdown"),
                params: None,
            },
        )
    }

    /// A client for the `index`-th of several concurrent calls: it talks
    /// through `transport`, waits as this one does, and its request gets the
    /// id `next_id + index + 1`, so that concurrent calls get distinct ids.
    pub fn fork(&self, index: usize, transport: T) -> (res: Client<T>)
        requires
            index <= i64::MAX,
            self.next_id() + index + 1 <= i64::MAX,
        ensures
            res.next_id() == self.next_id() + index + 1,
            res.timeout() == self.timeout(),
            res.transport_spec() == transport,
    {
        Client {
            transport,
            next_request_id: self.next_request_id + (index as i64) + 1,
            timeout_duration: self.timeout_duration,
        }
    }
}

impl<T> Client<T> {
    /// The clients for a batch of concurrent calls, one per transport, in
    /// order: the `i`-th talks through `transports[i]`, waits as this one
    /// does, and its request gets the id `next_id + i + 1`.
    pub fn fork_batch(&self, transports: Vec<T>) -> (res: Vec<Client<T>>)
        requires
            transports@.len() <= i64::MAX,
            self.next_id() + transports@.len() <= i64::MAX,
        ensures
            res@.len() == transports@.len(),
            forall|i: int|
                0 <= i < res@.len() ==> {
                    &&& (#[trigger] res@[i]).next_id() == self.next_id() + i + 1
                    &&& res@[i].timeout() == self.timeout()
                    &&& res@[i].transport_spec() == transports@[i]
                },
    {
        let ghost all = transports@;
        assert(transports.len() == all.len());
        let mut rest = transports;
        let mut out: Vec<Client<T>> = Vec::new();
        let mut i: usize = 0;
        while rest.len() > 0
            invariant
                out@.len() == i,
                rest@ == all.skip(i as int),
                i <= all.len(),
                all.len() <= usize::MAX,
                all.len() <= i64::MAX,
                self.next_id() + all.len() <= i64::MAX,
                forall|k: int|
                    0 <= k < i ==> {
                        &&& (#[trigger] out@[k]).next_id() == self.next_id() + k + 1
                        &&& out@[k].timeout() == self.timeout()
                        &&& out@[k].transport_spec() == all[k]
                    },
            decreases rest@.len(),
        {
            assert(rest@.len() == all.len() - i);
            let t = rest.remove(0);
            assert(all.skip(i as int)[0] == all[i as int]);
            assert(all.skip(i as int).remove(0) =~= all.skip(i + 1));
            let c = self.fork(i, t);
            out.push(c);
            i = i + 1;
        }
        assert(all.skip(i as int).len() == 0);
        out
    }
}

/// The results of a batch of concurrent calls, in the order of the calls:
/// each call's own result, or, when its task failed with the message `e`, a
/// transport error `Task join error: <e>`.
pub fn join_results<R>(joined: Vec<Result<Result<R, MCPError>, String>>) -> (res: Vec<Result<R, MCPError>>)
    ensures
        res@.len() == joined@.len(),
        forall|i: int|
            0 <= i < res@.len() ==> match #[trigger] joined@[i] {
                Ok(r) => res@[i] == r,
                Err(e) => res@[i] matches Err(MCPError::Transport(m)) && m@ == "Task join error: "@
                    + e@,
            },
{
    let ghost all = joined@;
    assert(joined.len() == all.len());
    let mut rest = joined;
    let mut out: Vec<Result<R, MCPError>> = Vec::new();
    let mut i: usize = 0;
    while rest.len() > 0
        invariant
            out@.len() == i,
            rest@ == all.skip(i as int),
            i <= all.len(),
            all.len() <= usize::MAX,
            forall|k: int|
                0 <= k < i ==> match #[trigger] all[k] {
                    Ok(r) => out@[k] == r,
                    Err(e) => out@[k] matches Err(MCPError::Transport(m)) && m@ == "Task join error: "@
                        + e@,
                },
        decreases rest@.len(),
    {
        assert(rest@.len() == all.len() - i);
        let j = rest.remove(0);
        assert(all.skip(i as int)[0] == all[i as int]);
        assert(all.skip(i as int).remove(0) =~= all.skip(i + 1));
        let r = match j {
            Ok(r) => r,
            Err(e) => Err(MCPError::Transport(concat2("Task join error: ", e.as_str()))),
        };
        out.push(r);
        i = i + 1;
    }
    assert(all.skip(i as int).len() == 0);
    out
}

/// The clients of one batch of concurrent calls use distinct ids, each above
/// every id the client had given out: for the clients
/// [`Client::fork_batch`] makes, the `i`-th and `j`-th ids differ when
/// `i != j`, and each exceeds the client's next id.
pub proof fn lemma_batch_ids_distinct<T>(client: Client<T>, batch: Seq<Client<T>>)
    requires
        forall|i: int| 0 <= i < batch.len() ==> (#[trigger] batch[i]).next_id() == client.next_id() + i + 1,
    ensures
        forall|i: int, j: int|
            0 <= i < j < batch.len() ==> (#[trigger] batch[i]).next_id() != (#[trigger] batch[j]).next_id(),
        forall|i: int| 0 <= i < batch.len() ==> (#[trigger] batch[i]).next_id() > client.next_id(),
{
}

/// What the answer to `initialize` means (see [`answer_outcome`]; the
/// context is `Initialization failed: `). `error_text` is the `Debug` text
/// of the answer when it is an error response.
pub fn initialize_outcome(answer_message: JSONRPCMessage, error_text: &str) -> (res: Result<JsonValue, MCPError>)
    ensures
        match answer_outcome(answer_message@, "Initialization failed: "@, error_text@) {
            Ok(j) => res matches Ok(v) && v@ == j,
            Err(e) => res matches Err(x) && x.display() == e,
        },
{
    answer(answer_message, "Initialization failed: ", error_text)
}

/// What the answer to a tool call means: a response must hold the tool's
/// output in its `result` member; otherwise as [`answer_outcome`] with the
/// context `Tool call failed: `.
pub open spec fn tool_call_outcome_spec(m: Message, error_text: Seq<char>) -> Result<Json, Seq<char>> {
    match answer_outcome(m, "Tool call failed: "@, error_text) {
        Ok(result) => match json_get(result, "result"@) {
            Some(v) => Ok(v),
            None => Err("Protocol error: "@ + "Missing 'result' field in response"@),
        },
        Err(e) => Err(e),
    }
}

/// What the answer to a tool call means (see [`tool_call_outcome_spec`]).
/// `error_text` is the `Debug` text of the answer when it is an error
/// response.
pub fn tool_call_outcome(answer_message: JSONRPCMessage, error_text: &str) -> (res: Result<JsonValue, MCPError>)
    ensures
        match tool_call_outcome_spec(answer_message@, error_text@) {
            Ok(j) => res matches Ok(v) && v@ == j,
            Err(e) => res matches Err(x) && x.display() == e,
        },
{
    match answer(answer_message, "Tool call failed: ", error_text) {
        Ok(result) => match result.get("result") {
            Some(v) => Ok(v.deep_clone()),
            None => Err(MCPError::Protocol(owned("Missing 'result' field in response"))),
        },
        Err(e) => Err(e),
    }
}

/// What the answer to `shutdown` means: a response means the client may
/// close its transport; otherwise as [`answer_outcome`] with the context
/// `Shutdown failed: `. `error_text` is the `Debug` text of the answer when
/// it is an error response.
pub fn shutdown_outcome(answer_message: JSONRPCMessage, error_text: &str) -> (res: Result<(), MCPError>)
    ensures
        match answer_outcome(answer_message@, "Shutdown failed: "@, error_text@) {
            Ok(_) => res is Ok,
            Err(e) => res matches Err(x) && x.display() == e,
        },
{
    match answer(answer_message, "Shutdown failed: ", error_text) {
        Ok(_) => Ok(()),
        Err(e) => Err(e),
    }
}

/// The outcome of a whole session from the session's own result and the
/// shutdown's: the session's error if it failed, otherwise the shutdown's
/// error if that failed, otherwise the session's result.
pub open spec fn session_result<R>(result: Result<R, MCPError>, shutdown: Result<(), MCPError>) -> Result<R, MCPError> {
    match result {
        Ok(r) => match shutdown {
            Ok(_) => Ok(r),
            Err(e) => Err(e),
        },
        Err(e) => Err(e),
    }
}

/// The outcome of a whole session (see [`session_result`]).
pub fn session_outcome<R>(result: Result<R, MCPError>, shutdown: Result<(), MCPError>) -> (res: Result<R, MCPError>)
    ensures
        res == session_result(result, shutdown),
{
    match result {
        Ok(r) => match shutdown {
            Ok(_) => Ok(r),
            Err(e) => Err(e),
        },
        Err(e) => Err(e),
    }
}

/// Where a session run by `execute_session` stands.
pub enum SessionStep<R> {
    /// Initialize the client next.
    Initialize,
    /// Run the caller's function next.
    RunBody,
    /// Shut the client down next; the function gave this.
    Shutdown(Result<R, MCPError>),
    /// The session is over with this outcome.
    Finished(Result<R, MCPError>),
}

/// What happened at the step a session stood at.
pub enum SessionEvent<R> {
    /// Initialization ended so.
    Initialized(Result<(), MCPError>),
    /// The caller's function ended so.
    BodyDone(Result<R, MCPError>),
    /// Shutdown ended so.
    ShutdownDone(Result<(), MCPError>),
}

/// The next step of a session: a failed initialization ends it with that
/// error, and neither the function nor shutdown runs; otherwise the
/// function runs, then shutdown, whatever the function gave, and the
/// session ends with [`session_result`]. An event out of turn changes
/// nothing, and a finished session stays finished.
pub open spec fn session_next<R>(step: SessionStep<R>, event: SessionEvent<R>) -> SessionStep<R> {
    match (step, event) {
        (SessionStep::Initialize, SessionEvent::Initialized(Err(e))) => SessionStep::Finished(Err(e)),
        (SessionStep::Initialize, SessionEvent::Initialized(Ok(_))) => SessionStep::RunBody,
        (SessionStep::RunBody, SessionEvent::BodyDone(r)) => SessionStep::Shutdown(r),
        (SessionStep::Shutdown(r), SessionEvent::ShutdownDone(sd)) => SessionStep::Finished(
            session_result(r, sd),
        ),
        (s, _) => s,
    }
}

/// The next step of a session (see [`session_next`]).
pub fn session_step<R>(step: SessionStep<R>, event: SessionEvent<R>) -> (res: SessionStep<R>)
    ensures
        res == session_next(step, event),
{
    match (step, event) {
        (SessionStep::Initialize, SessionEvent::Initialized(Err(e))) => SessionStep::Finished(Err(e)),
        (SessionStep::Initialize, SessionEvent::Initialized(Ok(_))) => SessionStep::RunBody,
        (SessionStep::RunBody, SessionEvent::BodyDone(r)) => SessionStep::Shutdown(r),
        (SessionStep::Shutdown(r), SessionEvent::ShutdownDone(sd)) => SessionStep::Finished(
            session_outcome(r, sd),
        ),
        (s, _) => s,
    }
}

/// A session runs initialize, then the caller's function, then shutdown:
/// when initialization fails, the session ends with its error and nothing
/// else runs; otherwise the function runs once, then shutdown runs once
/// whatever the function gave, and the session ends with the function's
/// error, else shutdown's error, else the function's result.
pub proof fn lemma_session_order<R>(
    init: Result<(), MCPError>,
    body: Result<R, MCPError>,
    shutdown: Result<(), MCPError>,
    later: SessionEvent<R>,
)
    ensures
        init is Err ==> session_next(SessionStep::<R>::Initialize, SessionEvent::<R>::Initialized(init))
            == SessionStep::<R>::Finished(Err(init->Err_0)),
        init is Ok ==> {
            &&& session_next(SessionStep::<R>::Initialize, SessionEvent::<R>::Initialized(init))
                == SessionStep::<R>::RunBody
            &&& session_next(SessionStep::<R>::RunBody, SessionEvent::<R>::BodyDone(body))
                == SessionStep::Shutdown(body)
            &&& session_next(SessionStep::Shutdown(body), SessionEvent::<R>::ShutdownDone(shutdown))
                == SessionStep::Finished(session_result(body, shutdown))
        },
        session_result(body, shutdown) == (match (body, shutdown) {
            (Err(e), _) => Err(e),
            (Ok(_), Err(e)) => Err(e),
            (Ok(r), Ok(_)) => Ok(r),
        }),
        forall|r: Result<R, MCPError>| #[trigger] session_next(SessionStep::Finished(r), later)
            == SessionStep::Finished(r),
{
}

/// The calls a client can be given, as far as request ids go.
pub enum ClientCall {
    /// `initialize` once the transport has started.
    Initialize,
    /// `call_tool`.
    CallTool,
    /// `shutdown`.
    Shutdown,
    /// `with_timeout`, `is_connected`, and anything else that sends nothing.
    Other,
}

/// Whether a call sends a request, and so uses an id.
pub open spec fn sends_request(c: ClientCall) -> bool {
    !(c is Other)
}

/// The id the next request of a client gets after `calls`, from `next`:
/// each request builder adds 1 ([`Client::initialize_request`],
/// [`Client::tool_call_request`], [`Client::shutdown_request`]); nothing
/// else changes it.
pub open spec fn next_id_after(next: int, calls: Seq<ClientCall>) -> int
    decreases calls.len(),
{
    if calls.len() == 0 {
        next
    } else {
        next_id_after(next, calls.drop_last()) + if sends_request(calls.last()) {
            1int
        } else {
            0int
        }
    }
}

/// The number of calls that send a request.
pub open spec fn requests_in(calls: Seq<ClientCall>) -> int
    decreases calls.len(),
{
    if calls.len() == 0 {
        0
    } else {
        requests_in(calls.drop_last()) + if sends_request(calls.last()) {
            1int
        } else {
            0int
        }
    }
}

proof fn lemma_requests_in(calls: Seq<ClientCall>)
    ensures
        requests_in(calls) >= 0,
        next_id_after(1, calls) == 1 + requests_in(calls),
        requests_in(calls) > 0 <==> exists|i: int| 0 <= i < calls.len() && sends_request(
            #[trigger] calls[i],
        ),
    decreases calls.len(),
{
    if calls.len() > 0 {
        let init = calls.drop_last();
        lemma_requests_in(init);
        if exists|i: int| 0 <= i < init.len() && sends_request(#[trigger] init[i]) {
            let i = choose|i: int| 0 <= i < init.len() && sends_request(#[trigger] init[i]);
            assert(calls[i] == init[i]);
        }
        if exists|i: int| 0 <= i < calls.len() && sends_request(#[trigger] calls[i]) {
            let i = choose|i: int| 0 <= i < calls.len() && sends_request(#[trigger] calls[i]);
            if i < calls.len() - 1 {
                assert(calls[i] == init[i]);
            }
        }
    }
}

/// How a call changes a client's next id, as the contracts of the request
/// builders ([`Client::initialize_request`], [`Client::tool_call_request`],
/// [`Client::shutdown_request`]: one more) and of every other method (no
/// change) say.
pub open spec fn call_step<T>(before: Client<T>, call: ClientCall, after: Client<T>) -> bool {
    after.next_id() == before.next_id() + if sends_request(call) {
        1int
    } else {
        0int
    }
}

/// A client is connected exactly once it has sent a request: for any run of
/// a client made by [`Client::new`] (next id 1) through the calls `calls`,
/// each changing the client as its contract says ([`call_step`]), the client
/// at the end has the next id [`next_id_after`] gives, and it is connected
/// ([`Client::is_connected`]: its next id is above 1) exactly when one of the
/// calls sent a request; with no calls it is not connected.
pub proof fn lemma_connected_iff_request_sent<T>(clients: Seq<Client<T>>, calls: Seq<ClientCall>)
    requires
        clients.len() == calls.len() + 1,
        clients[0].next_id() == 1,
        forall|i: int| 0 <= i < calls.len() ==> call_step(clients[i], #[trigger] calls[i], clients[i + 1]),
    ensures
        clients.last().next_id() == next_id_after(1, calls),
        (clients.last().next_id() > 1) <==> exists|i: int| 0 <= i < calls.len() && sends_request(
            #[trigger] calls[i],
        ),
    decreases calls.len(),
{
    lemma_requests_in(calls);
    if calls.len() > 0 {
        let n = calls.len() - 1;
        let cs = clients.take(clients.len() - 1);
        let ks = calls.drop_last();
        assert forall|i: int| 0 <= i < ks.len() implies call_step(cs[i], #[trigger] ks[i], cs[i + 1]) by {
            assert(ks[i] == calls[i]);
            assert(cs[i] == clients[i]);
            assert(cs[i + 1] == clients[i + 1]);
        }
        lemma_connected_iff_request_sent(cs, ks);
        assert(cs.last() == clients[n]);
        assert(call_step(clients[n], calls[n], clients[n + 1]));
        assert(calls.last() == calls[n]);
    }
}

/// Concurrent calls get ids of their own: the clients [`Client::fork`] makes
/// for two different calls of one batch have different ids, and each is
/// above every id the client itself has given out (those below its
/// `next_id`).
pub proof fn lemma_fork_ids_distinct<T>(
    client: Client<T>,
    a: Client<T>,
    b: Client<T>,
    i: nat,
    j: nat,
)
    requires
        a.next_id() == client.next_id() + i + 1,
        b.next_id() == client.next_id() + j + 1,
        i != j,
    ensures
        a.next_id() != b.next_id(),
        a.next_id() > client.next_id(),
        b.next_id() > client.next_id(),
{
}

} // verus!
