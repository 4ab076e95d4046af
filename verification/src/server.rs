//! The MCP server: its configuration, its registry of tool handlers, and the
//! decision what to answer to each message a client sends.
//!
//! Receiving and sending messages, and running a tool handler, are the
//! caller's part: [`Server::next_step`] tells it whether to read another
//! message or to close the transport, [`Server::on_received`] (through
//! [`Server::handle_message`]) what to do with what it read,
//! [`Server::find_handler`] which handler serves a tool call, and
//! [`Server::tool_call_reply`] what to answer once the handler has finished.

use vstd::prelude::*;
use std::time::Duration;
use crate::constants::{JSONRPC_VERSION, LATEST_PROTOCOL_VERSION};
use crate::error::{MCPError, ErrorView};
use crate::json::{Json, JsonValue, items_view, entries_view, json_get, members_get, empty_object};
use crate::jsonrpc::{RequestId, Id, JSONRPCMessage, JSONRPCRequest, JSONRPCResponse, JSONRPCError, JSONRPCErrorObject, Message, push_member};
use crate::schema::{Tool, Prompt, Resource, tool_json, prompt_json, resource_json, push_item};
use crate::text::{owned, concat2, concat3, str_eq};

verus! {

/// Server configuration
#[derive(Debug)]
pub struct ServerConfig {
    /// Server name
    pub name: String,
    /// Server version
    pub version: String,
    /// Available tools
    pub tools: Vec<Tool>,
    /// Available prompts
    pub prompts: Vec<Prompt>,
    /// Available resources
    pub resources: Vec<Resource>,
    /// Timeout for receiving a message
    pub timeout: Option<Duration>,
}

impl ServerConfig {
    /// Create a new server configuration: named "MCP Server", version
    /// "1.0.0", with no tools, prompts or resources and no timeout.
    pub fn new() -> (res: Self)
        ensures
            res.name@ == "MCP Server"@,
            res.version@ == "1.0.0"@,
            res.tools@.len() == 0,
            res.prompts@.len() == 0,
            res.resources@.len() == 0,
            res.timeout is None,
    {
        ServerConfig {
            name: owned("MCP Server"),
            version: owned("1.0.0"),
            tools: Vec::new(),
            prompts: Vec::new(),
            resources: Vec::new(),
            timeout: None,
        }
    }

    /// Set the server name
    pub fn with_name(self, name: &str) -> (res: Self)
        ensures
            res.name@ == name@,
            res.version == self.version,
            res.tools == self.tools,
            res.prompts == self.prompts,
            res.resources == self.resources,
            res.timeout == self.timeout,
    {
        let mut s = self;
        s.name = owned(name);
        s
    }

    /// Set the server version
    pub fn with_version(self, version: &str) -> (res: Self)
        ensures
            res.version@ == version@,
            res.name == self.name,
            res.tools == self.tools,
            res.prompts == self.prompts,
            res.resources == self.resources,
            res.timeout == self.timeout,
    {
        let mut s = self;
        s.version = owned(version);
        s
    }

    /// Add a tool to the server, after the tools already there
    pub fn with_tool(self, tool: Tool) -> (res: Self)
        ensures
            res.tools@ == self.tools@.push(tool),
            res.name == self.name,
            res.version == self.version,
            res.prompts == self.prompts,
            res.resources == self.resources,
            res.timeout == self.timeout,
    {
        let mut s = self;
        s.tools.push(tool);
        s
    }

    /// Add a prompt to the server, after the prompts already there
    pub fn with_prompt(self, prompt: Prompt) -> (res: Self)
        ensures
            res.prompts@ == self.prompts@.push(prompt),
            res.name == self.name,
            res.version == self.version,
            res.tools == self.tools,
            res.resources == self.resources,
            res.timeout == self.timeout,
    {
        let mut s = self;
        s.prompts.push(prompt);
        s
    }

    /// Add a resource to the server, after the resources already there
    pub fn with_resource(self, resource: Resource) -> (res: Self)
        ensures
            res.resources@ == self.resources@.push(resource),
            res.name == self.name,
            res.version == self.version,
            res.tools == self.tools,
            res.prompts == self.prompts,
            res.timeout == self.timeout,
    {
        let mut s = self;
        s.resources.push(resource);
        s
    }

    /// Set a timeout for operations
    pub fn with_timeout(self, duration: Duration) -> (res: Self)
        ensures
            res.timeout == Some(duration),
            res.name == self.name,
            res.version == self.version,
            res.tools == self.tools,
            res.prompts == self.prompts,
            res.resources == self.resources,
    {
        let mut s = self;
        s.timeout = Some(duration);
        s
    }
}

impl Default for ServerConfig {
    fn default() -> (res: Self)
        ensures
            res.name@ == "MCP Server"@,
            res.version@ == "1.0.0"@,
            res.tools@.len() == 0,
            res.prompts@.len() == 0,
            res.resources@.len() == 0,
            res.timeout is None,
    {
        Self::new()
    }
}

// ---------------------------------------------------------------------------
// What the server answers
// ---------------------------------------------------------------------------

/// `{"listChanged": false}`, with `"subscribe": false` after it when asked.
pub open spec fn capability_json(with_subscribe: bool) -> Json {
    if with_subscribe {
        Json::Object(seq![("listChanged"@, Json::Bool(false)), ("subscribe"@, Json::Bool(false))])
    } else {
        Json::Object(seq![("listChanged"@, Json::Bool(false))])
    }
}

/// The server's capabilities: `prompts`, `resources` and `tools`, each only
/// when the configuration offers at least one of them.
pub open spec fn capabilities_json(c: ServerConfig) -> Json {
    Json::Object(
        (if c.prompts@.len() > 0 {
            seq![("prompts"@, capability_json(false))]
        } else {
            seq![]
        }) + (if c.resources@.len() > 0 {
            seq![("resources"@, capability_json(true))]
        } else {
            seq![]
        }) + (if c.tools@.len() > 0 {
            seq![("tools"@, capability_json(false))]
        } else {
            seq![]
        }),
    )
}

/// The result of `initialize`: the protocol version, the capabilities, and
/// the server's name and version.
pub open spec fn initialize_result_json(c: ServerConfig) -> Json {
    Json::Object(
        seq![
            ("protocolVersion"@, Json::Str(LATEST_PROTOCOL_VERSION@)),
            ("capabilities"@, capabilities_json(c)),
            ("serverInfo"@, Json::Object(seq![("name"@, Json::Str(c.name@)), ("version"@, Json::Str(c.version@))])),
        ],
    )
}

/// The result of `tools/list`: all configured tools, in order.
pub open spec fn tools_list_json(c: ServerConfig) -> Json {
    Json::Object(seq![("tools"@, Json::Array(c.tools@.map_values(|t: Tool| tool_json(t))))])
}

/// The result of `prompts/list`: all configured prompts, in order.
pub open spec fn prompts_list_json(c: ServerConfig) -> Json {
    Json::Object(seq![("prompts"@, Json::Array(c.prompts@.map_values(|p: Prompt| prompt_json(p))))])
}

/// The result of `resources/list`: all configured resources, in order.
pub open spec fn resources_list_json(c: ServerConfig) -> Json {
    Json::Object(
        seq![("resources"@, Json::Array(c.resources@.map_values(|r: Resource| resource_json(r))))],
    )
}

/// A successful response with the given id and result.
pub open spec fn response(id: Id, result: Json) -> Message {
    Message::Response { jsonrpc: JSONRPC_VERSION@, id, result }
}

/// An error response with the given id, code and message, without data.
pub open spec fn error_response(id: Id, code: int, message: Seq<char>) -> Message {
    Message::Error { jsonrpc: JSONRPC_VERSION@, id, code, message, data: None }
}

/// The result of a successful tool call: one text content item holding the
/// tool's result as text.
pub open spec fn call_tool_result_json(text: Seq<char>) -> Json {
    Json::Object(
        seq![
            ("content"@, Json::Array(seq![Json::Object(seq![("type"@, Json::Str("text"@)), ("text"@, Json::Str(text))])])),
        ],
    )
}

/// A successful response with the given id and result.
pub fn response_message(id: RequestId, result: JsonValue) -> (res: JSONRPCMessage)
    ensures
        res@ == response(id@, result@),
{
    JSONRPCMessage::Response(JSONRPCResponse { jsonrpc: owned(JSONRPC_VERSION), id, result })
}

/// An error response with the given id, code and message, without data.
pub fn error_message(id: RequestId, code: i32, message: String) -> (res: JSONRPCMessage)
    ensures
        res@ == error_response(id@, code as int, message@),
{
    JSONRPCMessage::Error(
        JSONRPCError {
            jsonrpc: owned(JSONRPC_VERSION),
            id,
            error: JSONRPCErrorObject { code, message, data: None },
        },
    )
}

fn capability(with_subscribe: bool) -> (res: JsonValue)
    ensures
        res@ == capability_json(with_subscribe),
{
    let mut obj: Vec<(String, JsonValue)> = Vec::new();
    push_member(&mut obj, "listChanged", JsonValue::Bool(false));
    if with_subscribe {
        push_member(&mut obj, "subscribe", JsonValue::Bool(false));
    }
    let res = JsonValue::Object(obj);
    assert(JsonValue::Bool(false)@ == Json::Bool(false));
    if with_subscribe {
        assert(entries_view(obj@) =~= seq![("listChanged"@, Json::Bool(false)), ("subscribe"@, Json::Bool(false))]);
    } else {
        assert(entries_view(obj@) =~= seq![("listChanged"@, Json::Bool(false))]);
    }
    assert(res@ =~= capability_json(with_subscribe));
    res
}

impl ServerConfig {
    /// The server's capabilities, as `initialize` reports them.
    pub fn capabilities(&self) -> (res: JsonValue)
        ensures
            res@ == capabilities_json(*self),
    {
        let mut obj: Vec<(String, JsonValue)> = Vec::new();
        if self.prompts.len() > 0 {
            push_member(&mut obj, "prompts", capability(false));
        }
        let ghost a = entries_view(obj@);
        if self.resources.len() > 0 {
            push_member(&mut obj, "resources", capability(true));
        }
        let ghost b = entries_view(obj@);
        if self.tools.len() > 0 {
            push_member(&mut obj, "tools", capability(false));
        }
        let res = JsonValue::Object(obj);
        assert(entries_view(obj@) =~= (if self.prompts@.len() > 0 {
            seq![("prompts"@, capability_json(false))]
        } else {
            seq![]
        }) + (if self.resources@.len() > 0 {
            seq![("resources"@, capability_json(true))]
        } else {
            seq![]
        }) + (if self.tools@.len() > 0 {
            seq![("tools"@, capability_json(false))]
        } else {
            seq![]
        }));
        assert(res@ =~= capabilities_json(*self));
        res
    }

    /// The result of `initialize`.
    pub fn initialize_result(&self) -> (res: JsonValue)
        ensures
            res@ == initialize_result_json(*self),
    {
        let mut info: Vec<(String, JsonValue)> = Vec::new();
        push_member(&mut info, "name", JsonValue::String(self.name.clone()));
        push_member(&mut info, "version", JsonValue::String(self.version.clone()));
        let mut obj: Vec<(String, JsonValue)> = Vec::new();
        push_member(&mut obj, "protocolVersion", JsonValue::from_str(LATEST_PROTOCOL_VERSION));
        push_member(&mut obj, "capabilities", self.capabilities());
        push_member(&mut obj, "serverInfo", JsonValue::Object(info));
        let res = JsonValue::Object(obj);
        assert(entries_view(info@) =~= seq![("name"@, Json::Str(self.name@)), ("version"@, Json::Str(self.version@))]);
        assert(entries_view(obj@) =~= seq![
            ("protocolVersion"@, Json::Str(LATEST_PROTOCOL_VERSION@)),
            ("capabilities"@, capabilities_json(*self)),
            ("serverInfo"@, Json::Object(seq![("name"@, Json::Str(self.name@)), ("version"@, Json::Str(self.version@))])),
        ]);
        assert(res@ =~= initialize_result_json(*self));
        res
    }

    /// The result of `tools/list`.
    pub fn tools_list(&self) -> (res: JsonValue)
        ensures
            res@ == tools_list_json(*self),
    {
        let mut arr: Vec<JsonValue> = Vec::new();
        let mut i: usize = 0;
        while i < self.tools.len()
            invariant
                i <= self.tools@.len(),
                items_view(arr@) == self.tools@.take(i as int).map_values(|t: Tool| tool_json(t)),
            decreases self.tools@.len() - i,
        {
            push_item(&mut arr, self.tools[i].to_json());
            assert(self.tools@.take(i + 1).map_values(|t: Tool| tool_json(t)) =~= self.tools@.take(
                i as int,
            ).map_values(|t: Tool| tool_json(t)).push(tool_json(self.tools@[i as int])));
            i = i + 1;
        }
        assert(self.tools@.take(i as int) =~= self.tools@);
        let mut obj: Vec<(String, JsonValue)> = Vec::new();
        push_member(&mut obj, "tools", JsonValue::Array(arr));
        let res = JsonValue::Object(obj);
        assert(res@ =~= tools_list_json(*self));
        res
    }

    /// The result of `prompts/list`.
    pub fn prompts_list(&self) -> (res: JsonValue)
        ensures
            res@ == prompts_list_json(*self),
    {
        let mut arr: Vec<JsonValue> = Vec::new();
        let mut i: usize = 0;
        while i < self.prompts.len()
            invariant
                i <= self.prompts@.len(),
                items_view(arr@) == self.prompts@.take(i as int).map_values(
                    |p: Prompt| prompt_json(p),
                ),
            decreases self.prompts@.len() - i,
        {
            push_item(&mut arr, self.prompts[i].to_json());
            assert(self.prompts@.take(i + 1).map_values(|p: Prompt| prompt_json(p))
                =~= self.prompts@.take(i as int).map_values(|p: Prompt| prompt_json(p)).push(
                prompt_json(self.prompts@[i as int]),
            ));
            i = i + 1;
        }
        assert(self.prompts@.take(i as int) =~= self.prompts@);
        let mut obj: Vec<(String, JsonValue)> = Vec::new();
        push_member(&mut obj, "prompts", JsonValue::Array(arr));
        let res = JsonValue::Object(obj);
        assert(res@ =~= prompts_list_json(*self));
        res
    }

    /// The result of `resources/list`.
    pub fn resources_list(&self) -> (res: JsonValue)
        ensures
            res@ == resources_list_json(*self),
    {
        let mut arr: Vec<JsonValue> = Vec::new();
        let mut i: usize = 0;
        while i < self.resources.len()
            invariant
                i <= self.resources@.len(),
                items_view(arr@) == self.resources@.take(i as int).map_values(
                    |r: Resource| resource_json(r),
                ),
            decreases self.resources@.len() - i,
        {
            push_item(&mut arr, self.resources[i].to_json());
            assert(self.resources@.take(i + 1).map_values(|r: Resource| resource_json(r))
                =~= self.resources@.take(i as int).map_values(|r: Resource| resource_json(r)).push(
                resource_json(self.resources@[i as int]),
            ));
            i = i + 1;
        }
        assert(self.resources@.take(i as int) =~= self.resources@);
        let mut obj: Vec<(String, JsonValue)> = Vec::new();
        push_member(&mut obj, "resources", JsonValue::Array(arr));
        let res = JsonValue::Object(obj);
        assert(res@ =~= resources_list_json(*self));
        res
    }
}

// ---------------------------------------------------------------------------
// Tool calls
// ---------------------------------------------------------------------------

/// What follows the reading of the parameters of the `tools/call` request
/// `id`: with the tool's name and arguments, run the tool; with the reader's
/// error message `e`, report `Invalid tools/call parameters: <e>`.
pub open spec fn tool_call_action_spec(id: Id, decoded: Result<(Seq<char>, Json), Seq<char>>) -> Action {
    match decoded {
        Ok((name, arguments)) => Action::CallTool { id, name, arguments },
        Err(e) => Action::Report(ErrorView::Protocol("Invalid tools/call parameters: "@ + e)),
    }
}

/// The answer to a `tools/call` request once the tool has run: on success, a
/// response whose content is the result's text; on failure, an error
/// response with code -32000 and the message `Tool execution failed: `
/// followed by the error's message.
pub open spec fn tool_call_reply_spec(id: Id, outcome: Result<Seq<char>, Seq<char>>) -> Message {
    match outcome {
        Ok(text) => response(id, call_tool_result_json(text)),
        Err(e) => error_response(id, -32000, "Tool execution failed: "@ + e),
    }
}

/// The result of a successful tool call, holding the result's text.
pub fn call_tool_result(text: String) -> (res: JsonValue)
    ensures
        res@ == call_tool_result_json(text@),
{
    let mut item: Vec<(String, JsonValue)> = Vec::new();
    push_member(&mut item, "type", JsonValue::from_str("text"));
    push_member(&mut item, "text", JsonValue::String(text));
    let mut content: Vec<JsonValue> = Vec::new();
    push_item(&mut content, JsonValue::Object(item));
    let mut obj: Vec<(String, JsonValue)> = Vec::new();
    push_member(&mut obj, "content", JsonValue::Array(content));
    let res = JsonValue::Object(obj);
    let ghost it = Json::Object(seq![("type"@, Json::Str("text"@)), ("text"@, Json::Str(text@))]);
    assert(entries_view(item@) =~= seq![("type"@, Json::Str("text"@)), ("text"@, Json::Str(text@))]);
    assert(items_view(content@) =~= seq![it]);
    assert(entries_view(obj@) =~= seq![("content"@, Json::Array(seq![it]))]);
    assert(res@ =~= call_tool_result_json(text@));
    res
}

// ---------------------------------------------------------------------------
// The server
// ---------------------------------------------------------------------------

/// What the server does with a message it received.
#[derive(Debug)]
pub enum ServerAction {
    /// Send this message to the client.
    Reply(JSONRPCMessage),
    /// Read the parameters of the `tools/call` request `id` as
    /// `CallToolParams` (a string `name` and an optional map `arguments`),
    /// and hand the outcome to [`Server::tool_call_action`].
    DecodeToolCall { id: RequestId, params: JsonValue },
    /// Run the named tool's handler on the arguments, then send the answer
    /// that [`Server::tool_call_reply`] gives for the request id.
    CallTool { id: RequestId, name: String, arguments: JsonValue },
    /// Send this message, then stop serving and close the transport.
    Shutdown(JSONRPCMessage),
    /// Send nothing; the error is only reported.
    Report(MCPError),
    /// Send nothing.
    Idle,
}

/// The mathematical form of a [`ServerAction`].
pub enum Action {
    Reply(Message),
    DecodeToolCall { id: Id, params: Json },
    CallTool { id: Id, name: Seq<char>, arguments: Json },
    Shutdown(Message),
    Report(ErrorView),
    Idle,
}

impl View for ServerAction {
    type V = Action;

    open spec fn view(&self) -> Action {
        match self {
            ServerAction::Reply(m) => Action::Reply(m@),
            ServerAction::DecodeToolCall { id, params } => Action::DecodeToolCall {
                id: id@,
                params: params@,
            },
            ServerAction::CallTool { id, name, arguments } => Action::CallTool {
                id: id@,
                name: name@,
                arguments: arguments@,
            },
            ServerAction::Shutdown(m) => Action::Shutdown(m@),
            ServerAction::Report(e) => Action::Report(e@),
            ServerAction::Idle => Action::Idle,
        }
    }
}

/// What a server with configuration `c` does with the message `m`:
/// - `initialize`, `tools/list`, `prompts/list`, `resources/list`: respond
///   with the corresponding result;
/// - `ping`: respond with an empty object;
/// - `$/cancelRequest`: respond with `null` when the parameters hold an `id`,
///   otherwise an error response with code -32602;
/// - `tools/call`: read the parameters (see [`tool_call_action`]), or
///   report that there are none;
/// - `shutdown`: respond with an empty object, then stop;
/// - any other method: an error response with code -32601;
/// - notifications: nothing; responses and errors: report them as unexpected.
pub open spec fn dispatch(c: ServerConfig, m: Message) -> Action {
    match m {
        Message::Request { id, method, params, .. } => {
            if method == "initialize"@ {
                Action::Reply(response(id, initialize_result_json(c)))
            } else if method == "tools/list"@ {
                Action::Reply(response(id, tools_list_json(c)))
            } else if method == "prompts/list"@ {
                Action::Reply(response(id, prompts_list_json(c)))
            } else if method == "resources/list"@ {
                Action::Reply(response(id, resources_list_json(c)))
            } else if method == "ping"@ {
                Action::Reply(response(id, empty_object()))
            } else if method == "$/cancelRequest"@ {
                match params {
                    Some(p) => if json_get(p, "id"@) is Some {
                        Action::Reply(response(id, Json::Null))
                    } else {
                        Action::Reply(error_response(id, -32602, "Missing required parameter 'id'"@))
                    },
                    None => Action::Reply(error_response(id, -32602, "Missing required parameters"@)),
                }
            } else if method == "tools/call"@ {
                match params {
                    None => Action::Report(
                        ErrorView::Protocol("Missing parameters in tools/call request"@),
                    ),
                    Some(p) => Action::DecodeToolCall { id, params: p },
                }
            } else if method == "shutdown"@ {
                Action::Shutdown(response(id, empty_object()))
            } else {
                Action::Reply(error_response(id, -32601, "Method not found: "@ + method))
            }
        },
        Message::Notification { .. } => Action::Idle,
        _ => Action::Report(ErrorView::Protocol("Unexpected message type"@)),
    }
}

/// Whether the message is a `shutdown` request.
pub open spec fn is_shutdown_request(m: Message) -> bool {
    m matches Message::Request { method, .. } && method == "shutdown"@
}

/// The handler registered first under `name` among `hs`.
pub open spec fn handlers_lookup<H>(hs: Seq<(String, H)>, name: Seq<char>) -> Option<H>
    decreases hs.len(),
{
    if hs.len() == 0 {
        None
    } else if hs[0].0@ == name {
        Some(hs[0].1)
    } else {
        handlers_lookup(hs.skip(1), name)
    }
}

/// Whether the configuration offers a tool named `name`.
pub open spec fn tool_configured(c: ServerConfig, name: Seq<char>) -> bool {
    exists|i: int| 0 <= i < c.tools@.len() && (#[trigger] c.tools@[i]).name@ == name
}

/// High-level MCP server: its configuration, the handlers registered for
/// its tools (of any type `H`), and whether a shutdown was requested.
pub struct Server<H> {
    config: ServerConfig,
    tool_handlers: Vec<(String, H)>,
    shutdown_requested: bool,
}

impl<H> Server<H> {
    /// The server's configuration.
    pub closed spec fn config(&self) -> ServerConfig {
        self.config
    }

    /// The handler registered for the tool `name`.
    pub closed spec fn handler_for(&self, name: Seq<char>) -> Option<H> {
        handlers_lookup(self.tool_handlers@, name)
    }

    /// Whether a client asked the server to shut down.
    pub closed spec fn shutdown_requested(&self) -> bool {
        self.shutdown_requested
    }

    /// Create a new MCP server with the given configuration and no handlers.
    pub fn new(config: ServerConfig) -> (res: Self)
        ensures
            res.config() == config,
            forall|n: Seq<char>| #[trigger] res.handler_for(n) is None,
            !res.shutdown_requested(),
    {
        Server { config, tool_handlers: Vec::new(), shutdown_requested: false }
    }

    /// The server's configuration.
    pub fn get_config(&self) -> (res: &ServerConfig)
        ensures
            *res == self.config(),
    {
        &self.config
    }

    /// Whether a client asked the server to shut down.
    pub fn is_shutdown_requested(&self) -> (res: bool)
        ensures
            res == self.shutdown_requested(),
    {
        self.shutdown_requested
    }

    /// Register the handler for a tool. The tool must be in the
    /// configuration; a handler registered before for it is replaced.
    pub fn register_tool_handler(&mut self, tool_name: &str, handler: H) -> (res: Result<
        (),
        MCPError,
    >)
        ensures
            final(self).config() == old(self).config(),
            final(self).shutdown_requested() == old(self).shutdown_requested(),
            tool_configured(old(self).config(), tool_name@) ==> {
                &&& res is Ok
                &&& final(self).handler_for(tool_name@) == Some(handler)
                &&& forall|n: Seq<char>|
                    n != tool_name@ ==> #[trigger] final(self).handler_for(n) == old(
                        self,
                    ).handler_for(n)
            },
            !tool_configured(old(self).config(), tool_name@) ==> {
                &&& res matches Err(MCPError::Protocol(m)) && m@ == "Tool '"@ + tool_name@
                    + "' not found in server configuration"@
                &&& forall|n: Seq<char>| #[trigger]
                    final(self).handler_for(n) == old(self).handler_for(n)
            },
    {
        let mut found = false;
        let mut i: usize = 0;
        while i < self.config.tools.len() && !found
            invariant
                i <= self.config.tools@.len(),
                found ==> tool_configured(self.config, tool_name@),
                !found ==> forall|j: int|
                    0 <= j < i ==> (#[trigger] self.config.tools@[j]).name@ != tool_name@,
            decreases self.config.tools@.len() - i, if found { 0int } else { 1int },
        {
            if str_eq(self.config.tools[i].name.as_str(), tool_name) {
                found = true;
            } else {
                i = i + 1;
            }
        }
        if !found {
            return Err(MCPError::Protocol(concat3("Tool '", tool_name, "' not found in server configuration")));
        }
        let ghost hs = self.tool_handlers@;
        let mut k: usize = 0;
        let mut hit = false;
        while k < self.tool_handlers.len() && !hit
            invariant
                hs == self.tool_handlers@,
                k <= hs.len(),
                forall|j: int| 0 <= j < k ==> (#[trigger] hs[j]).0@ != tool_name@,
                hit ==> k < hs.len() && hs[k as int].0@ == tool_name@,
            decreases hs.len() - k, if hit { 0int } else { 1int },
        {
            if str_eq(self.tool_handlers[k].0.as_str(), tool_name) {
                hit = true;
            } else {
                k = k + 1;
            }
        }
        if hit {
            let name_k = self.tool_handlers[k].0.clone();
            self.tool_handlers.set(k, (name_k, handler));
            proof {
                let new = self.tool_handlers@;
                lemma_lookup_at(new, tool_name@, k as int);
                assert forall|n: Seq<char>| n != tool_name@ implies #[trigger] handlers_lookup(new, n)
                    == handlers_lookup(hs, n) by {
                    lemma_lookup_same(hs, new, n);
                }
            }
        } else {
            self.tool_handlers.push((owned(tool_name), handler));
            proof {
                let new = self.tool_handlers@;
                assert(new =~= hs.push(new.last()));
                lemma_lookup_none(hs, tool_name@);
                assert forall|n: Seq<char>| #[trigger] handlers_lookup(new, n)
                    == (if handlers_lookup(hs, n) is Some {
                        handlers_lookup(hs, n)
                    } else if n == tool_name@ {
                        Some(handler)
                    } else {
                        None
                    }) by {
                    lemma_lookup_push(hs, new.last(), n);
                }
            }
        }
        Ok(())
    }
}

impl<H> Server<H> {
    /// Decide what to do with a message received from a client (see
    /// [`dispatch`]). A `shutdown` request marks the server as shutting down;
    /// nothing else changes.
    pub fn handle_message(&mut self, message: JSONRPCMessage) -> (act: ServerAction)
        ensures
            act@ == dispatch(old(self).config(), message@),
            final(self).config() == old(self).config(),
            forall|n: Seq<char>| #[trigger] final(self).handler_for(n) == old(self).handler_for(n),
            final(self).shutdown_requested() == (old(self).shutdown_requested()
                || is_shutdown_request(message@)),
    {
        match message {
            JSONRPCMessage::Request(req) => {
                let JSONRPCRequest { jsonrpc: _, id, method, params } = req;
                let m = method.as_str();
                if str_eq(m, "shutdown") {
                    self.shutdown_requested = true;
                }
                if str_eq(m, "initialize") {
                    ServerAction::Reply(response_message(id, self.config.initialize_result()))
                } else if str_eq(m, "tools/list") {
                    ServerAction::Reply(response_message(id, self.config.tools_list()))
                } else if str_eq(m, "prompts/list") {
                    ServerAction::Reply(response_message(id, self.config.prompts_list()))
                } else if str_eq(m, "resources/list") {
                    ServerAction::Reply(response_message(id, self.config.resources_list()))
                } else if str_eq(m, "ping") {
                    ServerAction::Reply(response_message(id, JsonValue::Object(Vec::new())))
                } else if str_eq(m, "$/cancelRequest") {
                    match params {
                        Some(p) => match p.get("id") {
                            Some(_) => ServerAction::Reply(response_message(id, JsonValue::Null)),
                            None => ServerAction::Reply(
                                error_message(id, -32602, owned("Missing required parameter 'id'")),
                            ),
                        },
                        None => ServerAction::Reply(
                            error_message(id, -32602, owned("Missing required parameters")),
                        ),
                    }
                } else if str_eq(m, "tools/call") {
                    match params {
                        None => ServerAction::Report(
                            MCPError::Protocol(owned("Missing parameters in tools/call request")),
                        ),
                        Some(p) => ServerAction::DecodeToolCall { id, params: p },
                    }
                } else if str_eq(m, "shutdown") {
                    ServerAction::Shutdown(response_message(id, JsonValue::Object(Vec::new())))
                } else {
                    ServerAction::Reply(
                        error_message(id, -32601, concat2("Method not found: ", m)),
                    )
                }
            },
            JSONRPCMessage::Notification(_) => ServerAction::Idle,
            _ => ServerAction::Report(MCPError::Protocol(owned("Unexpected message type"))),
        }
    }

    /// The handler registered for a tool, or the error that a call of an
    /// unregistered tool fails with.
    pub fn find_handler(&self, tool_name: &str) -> (res: Result<&H, MCPError>)
        ensures
            match self.handler_for(tool_name@) {
                Some(h) => res matches Ok(r) && *r == h,
                None => res matches Err(MCPError::Protocol(m)) && m@ == "No handler registered for tool '"@
                    + tool_name@ + "'"@,
            },
    {
        let ghost hs = self.tool_handlers@;
        let mut k: usize = 0;
        assert(hs.skip(0) =~= hs);
        while k < self.tool_handlers.len()
            invariant
                hs == self.tool_handlers@,
                k <= hs.len(),
                handlers_lookup(hs, tool_name@) == handlers_lookup(hs.skip(k as int), tool_name@),
            decreases hs.len() - k,
        {
            assert(hs.skip(k as int)[0] == hs[k as int]);
            if str_eq(self.tool_handlers[k].0.as_str(), tool_name) {
                return Ok(&self.tool_handlers[k].1);
            }
            assert(hs.skip(k as int).skip(1) =~= hs.skip(k + 1));
            k = k + 1;
        }
        Err(MCPError::Protocol(concat3("No handler registered for tool '", tool_name, "'")))
    }

    /// What follows the reading of a `tools/call` request's parameters: with
    /// the tool's name and arguments (`null` when there are none), run the
    /// tool; with the reader's error message, report it (see
    /// [`tool_call_action_spec`]).
    pub fn tool_call_action(id: RequestId, decoded: Result<(String, JsonValue), String>) -> (res: ServerAction)
        ensures
            res@ == tool_call_action_spec(
                id@,
                match decoded {
                    Ok((n, a)) => Ok((n@, a@)),
                    Err(e) => Err(e@),
                },
            ),
    {
        match decoded {
            Ok((name, arguments)) => ServerAction::CallTool { id, name, arguments },
            Err(e) => ServerAction::Report(
                MCPError::Protocol(concat2("Invalid tools/call parameters: ", e.as_str())),
            ),
        }
    }

    /// The answer to the `tools/call` request `id` once the tool has run:
    /// `outcome` is the text of the tool's result, or the error it failed
    /// with (see [`tool_call_reply_spec`]).
    pub fn tool_call_reply(id: RequestId, outcome: Result<String, MCPError>) -> (res: JSONRPCMessage)
        ensures
            res@ == tool_call_reply_spec(
                id@,
                match outcome {
                    Ok(t) => Ok(t@),
                    Err(e) => Err(e.display()),
                },
            ),
    {
        match outcome {
            Ok(text) => response_message(id, call_tool_result(text)),
            Err(e) => {
                let msg = e.to_string();
                error_message(id, -32000, concat2("Tool execution failed: ", msg.as_str()))
            },
        }
    }
}

/// What the serving loop does next.
#[derive(Debug, Clone, Copy, PartialEq, Eq)]
pub enum LoopStep {
    /// Read the next message from the transport.
    Receive,
    /// Close the transport and stop serving.
    Close,
}

/// The serving loop's decision: close once a shutdown was requested, read
/// the next message otherwise.
pub open spec fn loop_step(shutdown: bool) -> LoopStep {
    if shutdown {
        LoopStep::Close
    } else {
        LoopStep::Receive
    }
}

/// The mathematical form of the outcome of a read.
pub open spec fn receipt(r: Result<JSONRPCMessage, MCPError>) -> Result<Message, ErrorView> {
    match r {
        Ok(m) => Ok(m@),
        Err(e) => Err(e@),
    }
}

/// What the server does with the outcome of a read: a message is handled as
/// [`dispatch`] says; a read that failed or timed out is only reported, and
/// the loop goes on.
pub open spec fn received_action(c: ServerConfig, r: Result<Message, ErrorView>) -> Action {
    match r {
        Ok(m) => dispatch(c, m),
        Err(e) => Action::Report(e),
    }
}

/// Whether a read gave a `shutdown` request.
pub open spec fn received_shutdown(r: Result<Message, ErrorView>) -> bool {
    r matches Ok(m) && is_shutdown_request(m)
}

/// A run of the serving loop of a server with configuration `c` whose
/// shutdown flag is `stopped`, when its reads give `reads` in order (until
/// they run out): the number of reads it makes, what it does after each,
/// and whether it closed the transport.
pub open spec fn serve_run(c: ServerConfig, stopped: bool, reads: Seq<Result<Message, ErrorView>>) -> (
    nat,
    Seq<Action>,
    bool,
)
    decreases reads.len(),
{
    match loop_step(stopped) {
        LoopStep::Close => (0, Seq::empty(), true),
        LoopStep::Receive => if reads.len() == 0 {
            (0, Seq::empty(), false)
        } else {
            let rest = serve_run(c, received_shutdown(reads[0]), reads.drop_first());
            (rest.0 + 1, seq![received_action(c, reads[0])] + rest.1, rest.2)
        },
    }
}

impl<H> Server<H> {
    /// What the serving loop does next (see [`loop_step`]).
    pub fn next_step(&self) -> (res: LoopStep)
        ensures
            res == loop_step(self.shutdown_requested()),
    {
        if self.shutdown_requested {
            LoopStep::Close
        } else {
            LoopStep::Receive
        }
    }

    /// Decide what to do with the outcome of a read (see
    /// [`received_action`]); a `shutdown` request marks the server as
    /// shutting down, and nothing else changes.
    pub fn on_received(&mut self, received: Result<JSONRPCMessage, MCPError>) -> (act: ServerAction)
        ensures
            act@ == received_action(old(self).config(), receipt(received)),
            final(self).config() == old(self).config(),
            forall|n: Seq<char>| #[trigger] final(self).handler_for(n) == old(self).handler_for(n),
            final(self).shutdown_requested() == (old(self).shutdown_requested()
                || received_shutdown(receipt(received))),
    {
        match received {
            Ok(m) => self.handle_message(m),
            Err(e) => ServerAction::Report(e),
        }
    }
}

/// A `shutdown` request is answered with an empty result under its id.
proof fn lemma_shutdown_dispatch(c: ServerConfig, m: Message)
    requires
        is_shutdown_request(m),
    ensures
        dispatch(c, m) == Action::Shutdown(response(m->Request_id, empty_object())),
{
    reveal_strlit("shutdown");
    reveal_strlit("initialize");
    reveal_strlit("tools/list");
    reveal_strlit("prompts/list");
    reveal_strlit("resources/list");
    reveal_strlit("ping");
    reveal_strlit("$/cancelRequest");
    reveal_strlit("tools/call");
}

/// A `shutdown` request ends serving: when the first `shutdown` request
/// among the reads is the `k`-th, the loop makes exactly `k + 1` reads, does
/// with each earlier one what [`received_action`] says, answers the request
/// under its id with an empty result, and closes the transport. A server
/// whose shutdown flag is set closes at once, without reading.
pub proof fn lemma_shutdown_ends_serving(
    c: ServerConfig,
    reads: Seq<Result<Message, ErrorView>>,
    k: int,
)
    requires
        0 <= k < reads.len(),
        received_shutdown(reads[k]),
        forall|i: int| 0 <= i < k ==> !received_shutdown(#[trigger] reads[i]),
    ensures
        serve_run(c, false, reads).0 == k + 1,
        serve_run(c, false, reads).2,
        serve_run(c, false, reads).1.len() == k + 1,
        serve_run(c, false, reads).1[k] == Action::Shutdown(
            response(reads[k]->Ok_0->Request_id, empty_object()),
        ),
        forall|i: int|
            0 <= i < k ==> #[trigger] serve_run(c, false, reads).1[i] == received_action(c, reads[i]),
        forall|rs: Seq<Result<Message, ErrorView>>|
            #[trigger] serve_run(c, true, rs) == (0nat, Seq::<Action>::empty(), true),
    decreases k,
{
    assert forall|rs: Seq<Result<Message, ErrorView>>|
        #[trigger] serve_run(c, true, rs) == (0nat, Seq::<Action>::empty(), true) by {}
    let rest = reads.drop_first();
    if k == 0 {
        assert(serve_run(c, true, rest) == (0nat, Seq::<Action>::empty(), true));
        lemma_shutdown_dispatch(c, reads[0]->Ok_0);
    } else {
        assert forall|i: int| 0 <= i < k - 1 implies !received_shutdown(#[trigger] rest[i]) by {
            assert(rest[i] == reads[i + 1]);
        }
        assert(rest[k - 1] == reads[k]);
        lemma_shutdown_ends_serving(c, rest, k - 1);
        let r = serve_run(c, false, rest);
        assert(!received_shutdown(reads[0]));
        assert(serve_run(c, false, reads).1 == seq![received_action(c, reads[0])] + r.1);
        assert forall|i: int|
            0 <= i < k implies #[trigger] serve_run(c, false, reads).1[i] == received_action(c, reads[i]) by {
            if i > 0 {
                assert(r.1[i - 1] == received_action(c, rest[i - 1]));
                assert(rest[i - 1] == reads[i]);
            }
        }
        assert(serve_run(c, false, reads).1[k] == r.1[k - 1]);
    }
}

/// The handler found for a name is the one at its first occurrence.
pub proof fn lemma_lookup_at<H>(hs: Seq<(String, H)>, n: Seq<char>, i: int)
    requires
        0 <= i < hs.len(),
        hs[i].0@ == n,
        forall|j: int| 0 <= j < i ==> (#[trigger] hs[j]).0@ != n,
    ensures
        handlers_lookup(hs, n) == Some(hs[i].1),
    decreases i,
{
    if i > 0 {
        assert forall|j: int| 0 <= j < i - 1 implies (#[trigger] hs.skip(1)[j]).0@ != n by {
            assert(hs.skip(1)[j] == hs[j + 1]);
        }
        lemma_lookup_at(hs.skip(1), n, i - 1);
    }
}

/// No handler is found for a name that is not registered.
pub proof fn lemma_lookup_none<H>(hs: Seq<(String, H)>, n: Seq<char>)
    requires
        forall|j: int| 0 <= j < hs.len() ==> (#[trigger] hs[j]).0@ != n,
    ensures
        handlers_lookup(hs, n) is None,
    decreases hs.len(),
{
    if hs.len() > 0 {
        assert forall|j: int| 0 <= j < hs.len() - 1 implies (#[trigger] hs.skip(1)[j]).0@ != n by {
            assert(hs.skip(1)[j] == hs[j + 1]);
        }
        lemma_lookup_none(hs.skip(1), n);
    }
}

/// Two registries with the same names, in order, that agree on the handlers
/// for `n`, find the same handler for `n`.
pub proof fn lemma_lookup_same<H>(a: Seq<(String, H)>, b: Seq<(String, H)>, n: Seq<char>)
    requires
        a.len() == b.len(),
        forall|j: int| 0 <= j < a.len() ==> (#[trigger] a[j]).0@ == b[j].0@,
        forall|j: int| 0 <= j < a.len() && (#[trigger] a[j]).0@ == n ==> a[j].1 == b[j].1,
    ensures
        handlers_lookup(a, n) == handlers_lookup(b, n),
    decreases a.len(),
{
    if a.len() > 0 {
        assert forall|j: int| 0 <= j < a.len() - 1 implies (#[trigger] a.skip(1)[j]).0@ == b.skip(
            1,
        )[j].0@ by {
            assert(a.skip(1)[j] == a[j + 1]);
            assert(b.skip(1)[j] == b[j + 1]);
        }
        assert forall|j: int| 0 <= j < a.len() - 1 && (#[trigger] a.skip(1)[j]).0@ == n implies a.skip(
            1,
        )[j].1 == b.skip(1)[j].1 by {
            assert(a.skip(1)[j] == a[j + 1]);
            assert(b.skip(1)[j] == b[j + 1]);
        }
        lemma_lookup_same(a.skip(1), b.skip(1), n);
    }
}

/// Registering at the end is seen only by names not registered before.
pub proof fn lemma_lookup_push<H>(hs: Seq<(String, H)>, e: (String, H), n: Seq<char>)
    ensures
        handlers_lookup(hs.push(e), n) == (if handlers_lookup(hs, n) is Some {
            handlers_lookup(hs, n)
        } else if e.0@ == n {
            Some(e.1)
        } else {
            None
        }),
    decreases hs.len(),
{
    let hp = hs.push(e);
    if hs.len() > 0 {
        assert(hp[0] == hs[0]);
        if hs[0].0@ != n {
            assert(hp.skip(1) =~= hs.skip(1).push(e));
            lemma_lookup_push(hs.skip(1), e, n);
            assert(handlers_lookup(hp, n) == handlers_lookup(hp.skip(1), n));
            assert(handlers_lookup(hs, n) == handlers_lookup(hs.skip(1), n));
        }
    } else {
        assert(hp[0] == e);
        assert(hp.skip(1) =~= Seq::<(String, H)>::empty());
        assert(handlers_lookup(hp.skip(1), n) is None);
        assert(handlers_lookup(hs, n) is None);
    }
}

/// The id a reply answers, if it is a response or an error response.
pub open spec fn answered_id(m: Message) -> Option<Id> {
    match m {
        Message::Response { id, .. } => Some(id),
        Message::Error { id, .. } => Some(id),
        _ => None,
    }
}

/// Every request is answered under its own id: whatever a server sends in
/// reply to a request (a reply, the last reply before shutting down, or the
/// reply once a tool has run) is a response or an error response carrying
/// the request's id; the only requests left unanswered are `tools/call`
/// requests without parameters, or whose parameters do not read as a tool
/// call, which are reported.
pub proof fn lemma_answers_carry_request_id(c: ServerConfig, m: Message)
    requires
        m is Request,
    ensures
        match dispatch(c, m) {
            Action::Reply(r) => answered_id(r) == Some(m->Request_id),
            Action::Shutdown(r) => answered_id(r) == Some(m->Request_id),
            Action::DecodeToolCall { id, .. } => {
                &&& id == m->Request_id
                &&& forall|d: Result<(Seq<char>, Json), Seq<char>>| match #[trigger] tool_call_action_spec(id, d) {
                    Action::CallTool { id: i, .. } => i == m->Request_id,
                    Action::Report(_) => d is Err,
                    _ => false,
                }
                &&& forall|o: Result<Seq<char>, Seq<char>>|
                    answered_id(#[trigger] tool_call_reply_spec(id, o)) == Some(m->Request_id)
            },
            Action::CallTool { .. } => false,
            Action::Report(_) => m->Request_method == "tools/call"@,
            Action::Idle => false,
        },
{
}

/// Notifications are never answered, and a message that is neither a
/// request nor a notification is only reported.
pub proof fn lemma_notifications_unanswered(c: ServerConfig, m: Message)
    ensures
        m is Notification ==> dispatch(c, m) is Idle,
        (m is Response || m is Error) ==> dispatch(c, m) is Report,
{
}

/// The method names the server tells apart are all different.
proof fn lemma_method_names()
    ensures
        "initialize"@ != "tools/list"@,
        "initialize"@ != "prompts/list"@,
        "initialize"@ != "resources/list"@,
        "tools/list"@ != "prompts/list"@,
        "tools/list"@ != "resources/list"@,
        "prompts/list"@ != "resources/list"@,
        "ping"@ != "initialize"@,
        "ping"@ != "tools/list"@,
        "ping"@ != "prompts/list"@,
        "ping"@ != "resources/list"@,
{
    reveal_strlit("initialize");
    reveal_strlit("tools/list");
    reveal_strlit("prompts/list");
    reveal_strlit("resources/list");
    reveal_strlit("ping");
    assert("initialize"@[0] != "tools/list"@[0]);
    assert("initialize"@[0] != "prompts/list"@[0]);
    assert("initialize"@[0] != "resources/list"@[0]);
    assert("tools/list"@[0] != "prompts/list"@[0]);
    assert("tools/list"@[0] != "resources/list"@[0]);
    assert("prompts/list"@[0] != "resources/list"@[0]);
    assert("ping"@[0] != "initialize"@[0]);
    assert("ping"@[0] != "tools/list"@[0]);
    assert("ping"@[1] != "prompts/list"@[1]);
    assert("ping"@[0] != "resources/list"@[0]);
}

/// The id and result of the response an action sends, if it sends one.
pub open spec fn reply_result(a: Action) -> Option<(Id, Json)> {
    match a {
        Action::Reply(Message::Response { id, result, .. }) => Some((id, result)),
        _ => None,
    }
}

/// The items of the array held by the member `key` of `j`, if it holds one.
pub open spec fn array_member(j: Json, key: Seq<char>) -> Option<Seq<Json>> {
    match json_get(j, key) {
        Some(Json::Array(items)) => Some(items),
        _ => None,
    }
}

/// `tools/list` lists every configured tool: the answer is a response under
/// the request's id whose `tools` member is an array with one entry per
/// configured tool, in order, the `i`-th being that tool's description and
/// naming it.
pub proof fn lemma_tools_list_lists_every_tool(c: ServerConfig, m: Message)
    requires
        m is Request,
        m->Request_method == "tools/list"@,
    ensures
        ({
            let r = reply_result(dispatch(c, m));
            let p = r->0;
            let items = array_member(p.1, "tools"@);
            &&& r is Some
            &&& p.0 == m->Request_id
            &&& items is Some
            &&& items->0.len() == c.tools@.len()
            &&& forall|i: int|
                0 <= i < c.tools@.len() ==> #[trigger] items->0[i] == tool_json(c.tools@[i])
                    && json_get(items->0[i], "name"@) == Some(Json::Str(c.tools@[i].name@))
        }),
{
    lemma_method_names();
}

/// `prompts/list` lists every configured prompt, in order, each naming its
/// prompt (see [`lemma_tools_list_lists_every_tool`]).
pub proof fn lemma_prompts_list_lists_every_prompt(c: ServerConfig, m: Message)
    requires
        m is Request,
        m->Request_method == "prompts/list"@,
    ensures
        ({
            let r = reply_result(dispatch(c, m));
            let p = r->0;
            let items = array_member(p.1, "prompts"@);
            &&& r is Some
            &&& p.0 == m->Request_id
            &&& items is Some
            &&& items->0.len() == c.prompts@.len()
            &&& forall|i: int|
                0 <= i < c.prompts@.len() ==> #[trigger] items->0[i] == prompt_json(c.prompts@[i])
                    && json_get(items->0[i], "name"@) == Some(Json::Str(c.prompts@[i].name@))
        }),
{
    lemma_method_names();
}

/// `resources/list` lists every configured resource, in order, each with its
/// URI (see [`lemma_tools_list_lists_every_tool`]).
pub proof fn lemma_resources_list_lists_every_resource(c: ServerConfig, m: Message)
    requires
        m is Request,
        m->Request_method == "resources/list"@,
    ensures
        ({
            let r = reply_result(dispatch(c, m));
            let p = r->0;
            let items = array_member(p.1, "resources"@);
            &&& r is Some
            &&& p.0 == m->Request_id
            &&& items is Some
            &&& items->0.len() == c.resources@.len()
            &&& forall|i: int|
                0 <= i < c.resources@.len() ==> #[trigger] items->0[i] == resource_json(
                    c.resources@[i],
                ) && json_get(items->0[i], "uri"@) == Some(Json::Str(c.resources@[i].uri@))
        }),
{
    lemma_method_names();
}

/// `initialize` is answered under the request's id with the protocol
/// version the server speaks and the server's configured name and version.
pub proof fn lemma_initialize_answer(c: ServerConfig, m: Message)
    requires
        m is Request,
        m->Request_method == "initialize"@,
    ensures
        ({
            let r = reply_result(dispatch(c, m));
            let p = r->0;
            let info = json_get(p.1, "serverInfo"@);
            &&& r is Some
            &&& p.0 == m->Request_id
            &&& json_get(p.1, "protocolVersion"@) == Some(Json::Str(LATEST_PROTOCOL_VERSION@))
            &&& info is Some
            &&& json_get(info->0, "name"@) == Some(Json::Str(c.name@))
            &&& json_get(info->0, "version"@) == Some(Json::Str(c.version@))
        }),
{
    reveal_strlit("protocolVersion");
    reveal_strlit("capabilities");
    reveal_strlit("serverInfo");
    reveal_strlit("name");
    reveal_strlit("version");
    assert("protocolVersion"@[0] != "serverInfo"@[0]);
    assert("capabilities"@[0] != "serverInfo"@[0]);
    assert("name"@[0] != "version"@[0]);
    reveal_with_fuel(members_get, 4);
    let r = dispatch(c, m);
    assert(r == Action::Reply(response(m->Request_id, initialize_result_json(c)))) by {
        reveal_strlit("initialize");
    }
    let j = initialize_result_json(c);
    let es = j->Object_0;
    assert(es.skip(1).skip(1)[0].0 == "serverInfo"@);
    assert(members_get(es, "serverInfo"@) == Some(es[2].1));
    let info = es[2].1;
    let ie = info->Object_0;
    assert(members_get(ie.skip(1), "version"@) == Some(ie[1].1));
}

/// `ping` is answered under the request's id with an empty object.
pub proof fn lemma_ping_answer(c: ServerConfig, m: Message)
    requires
        m is Request,
        m->Request_method == "ping"@,
    ensures
        reply_result(dispatch(c, m)) == Some((m->Request_id, Json::Object(seq![]))),
{
    lemma_method_names();
}

/// A tool that ran is answered under the request's id with exactly one
/// content item, an MCP text item (`"type": "text"`) holding the tool's
/// result text; a tool that failed is answered with the error code -32000
/// and the message `Tool execution failed: ` followed by the failure's own.
pub proof fn lemma_tool_call_reply_content(id: Id, outcome: Result<Seq<char>, Seq<char>>)
    ensures
        ({
            let reply = tool_call_reply_spec(id, outcome);
            let items = array_member(reply->Response_result, "content"@);
            match outcome {
                Ok(text) => {
                    &&& reply is Response
                    &&& reply->Response_id == id
                    &&& items is Some
                    &&& items->0.len() == 1
                    &&& json_get(items->0[0], "type"@) == Some(Json::Str("text"@))
                    &&& json_get(items->0[0], "text"@) == Some(Json::Str(text))
                },
                Err(e) => {
                    &&& reply is Error
                    &&& reply->Error_id == id
                    &&& reply->Error_code == -32000
                    &&& reply->Error_message == "Tool execution failed: "@ + e
                },
            }
        }),
{
    reveal_strlit("type");
    reveal_strlit("text");
    reveal_strlit("content");
    assert("type"@[1] != "text"@[1]);
    reveal_with_fuel(members_get, 3);
    if let Ok(text) = outcome {
        let item = Json::Object(seq![("type"@, Json::Str("text"@)), ("text"@, Json::Str(text))]);
        let ie = item->Object_0;
        assert(members_get(ie.skip(1), "text"@) == Some(Json::Str(text)));
    }
}

/// The capabilities name tools, prompts and resources exactly when the
/// configuration offers at least one of each.
pub proof fn lemma_capabilities_follow_config(c: ServerConfig)
    ensures
        (json_get(capabilities_json(c), "tools"@) is Some) == (c.tools@.len() > 0),
        (json_get(capabilities_json(c), "prompts"@) is Some) == (c.prompts@.len() > 0),
        (json_get(capabilities_json(c), "resources"@) is Some) == (c.resources@.len() > 0),
{
    reveal_strlit("tools");
    reveal_strlit("prompts");
    reveal_strlit("resources");
    assert("tools"@[0] != "prompts"@[0]);
    assert("tools"@[0] != "resources"@[0]);
    assert("prompts"@[0] != "resources"@[0]);
    reveal_with_fuel(members_get, 4);
    let es = capabilities_json(c)->Object_0;
    if c.prompts@.len() > 0 && c.resources@.len() > 0 && c.tools@.len() > 0 {
        assert(es.skip(1)[0].0 == "resources"@);
        assert(es.skip(1).skip(1)[0].0 == "tools"@);
    } else if c.prompts@.len() > 0 && c.resources@.len() > 0 {
        assert(es.skip(1)[0].0 == "resources"@);
        assert(es.skip(1).skip(1).len() == 0);
    } else if c.prompts@.len() > 0 && c.tools@.len() > 0 {
        assert(es.skip(1)[0].0 == "tools"@);
        assert(es.skip(1).skip(1).len() == 0);
    } else if c.resources@.len() > 0 && c.tools@.len() > 0 {
        assert(es.skip(1)[0].0 == "tools"@);
        assert(es.skip(1).skip(1).len() == 0);
    } else if c.prompts@.len() > 0 || c.resources@.len() > 0 || c.tools@.len() > 0 {
        assert(es.skip(1).len() == 0);
    }
}

/// A request for a method the server does not know is answered under its id
/// with the error code -32601 and the message `Method not found: <method>`.
pub proof fn lemma_unknown_method_answer(c: ServerConfig, m: Message)
    requires
        m is Request,
        m->Request_method != "initialize"@,
        m->Request_method != "tools/list"@,
        m->Request_method != "prompts/list"@,
        m->Request_method != "resources/list"@,
        m->Request_method != "ping"@,
        m->Request_method != "$/cancelRequest"@,
        m->Request_method != "tools/call"@,
        m->Request_method != "shutdown"@,
    ensures
        dispatch(c, m) == Action::Reply(
            error_response(m->Request_id, -32601, "Method not found: "@ + m->Request_method),
        ),
{
}

} // verus!
