//! The decisions of the `mcpr` command line: which transport a command
//! runs on, the echo server it starts, the tool a client session calls, and
//! the errors it reports.

use vstd::prelude::*;
use crate::error::MCPError;
use crate::json::{Json, JsonValue, json_view, items_view, entries_view, json_get, lemma_items_view};
use crate::jsonrpc::push_member;
use crate::schema::{Tool, ToolInputSchema, tool_json};
use crate::server::ServerConfig;
use crate::text::{owned, concat2, concat3, decimal, u64_to_decimal, str_eq};

verus! {

/// The URI the SSE server of `run-server` listens on; fails for the stdio
/// transport, which has no server, and for any unknown transport.
pub fn server_uri(port: u16, transport: &str) -> (res: Result<String, MCPError>)
    ensures
        transport@ == "stdio"@ ==> (res matches Err(MCPError::UnsupportedFeature(m)) && m@
            == "Stdio server not yet implemented"@),
        transport@ == "sse"@ ==> (res matches Ok(u) && u@ == "http://0.0.0.0:"@ + decimal(
            port as nat,
        )),
        transport@ != "stdio"@ && transport@ != "sse"@ ==> (res matches Err(MCPError::Transport(m))
            && m@ == "Unsupported transport type: "@ + transport@),
{
    proof {
        reveal_strlit("stdio");
        reveal_strlit("sse");
        assert("stdio"@.len() != "sse"@.len());
    }
    if str_eq(transport, "stdio") {
        Err(MCPError::UnsupportedFeature(owned("Stdio server not yet implemented")))
    } else if str_eq(transport, "sse") {
        let p = u64_to_decimal(port as u64);
        Ok(concat2("http://0.0.0.0:", p.as_str()))
    } else {
        Err(MCPError::Transport(concat2("Unsupported transport type: ", transport)))
    }
}

/// The JSON form of the echo tool that `run-server` offers.
pub open spec fn echo_tool_json() -> Json {
    Json::Object(
        seq![
            ("name"@, Json::Str("echo"@)),
            ("description"@, Json::Str("Echo tool"@)),
            (
                "inputSchema"@,
                Json::Object(
                    seq![
                        ("type"@, Json::Str("object"@)),
                        (
                            "properties"@,
                            Json::Object(
                                seq![
                                    (
                                        "message"@,
                                        Json::Object(
                                            seq![
                                                ("type"@, Json::Str("string"@)),
                                                ("description"@, Json::Str("Message to echo"@)),
                                            ],
                                        ),
                                    ),
                                ],
                            ),
                        ),
                        ("required"@, Json::Array(seq![Json::Str("message"@)])),
                    ],
                ),
            ),
        ],
    )
}

/// The echo tool: `echo`, which takes a required string `message`.
pub fn echo_tool() -> (res: Tool)
    ensures
        tool_json(res) == echo_tool_json(),
{
    let mut message_schema: Vec<(String, JsonValue)> = Vec::new();
    push_member(&mut message_schema, "type", JsonValue::from_str("string"));
    push_member(&mut message_schema, "description", JsonValue::from_str("Message to echo"));
    let mut properties: Vec<(String, JsonValue)> = Vec::new();
    push_member(&mut properties, "message", JsonValue::Object(message_schema));
    let required = vec![owned("message")];
    let res = Tool {
        name: owned("echo"),
        description: Some(owned("Echo tool")),
        input_schema: ToolInputSchema {
            schema_type: owned("object"),
            properties: Some(properties),
            required: Some(required),
        },
    };
    assert(entries_view(message_schema@) =~= seq![
        ("type"@, Json::Str("string"@)),
        ("description"@, Json::Str("Message to echo"@)),
    ]);
    assert(entries_view(properties@) =~= seq![
        ("message"@, Json::Object(entries_view(message_schema@))),
    ]);
    assert(crate::schema::strs_json(required@) =~= seq![Json::Str("message"@)]);
    let ghost schema = Json::Object(
        seq![
            ("type"@, Json::Str("object"@)),
            ("properties"@, Json::Object(entries_view(properties@))),
            ("required"@, Json::Array(seq![Json::Str("message"@)])),
        ],
    );
    assert(seq![("type"@, Json::Str("object"@))] + crate::jsonrpc::opt_member(
        "properties"@,
        Some(Json::Object(entries_view(properties@))),
    ) + crate::jsonrpc::opt_member(
        "required"@,
        Some(Json::Array(crate::schema::strs_json(required@))),
    ) =~= seq![
        ("type"@, Json::Str("object"@)),
        ("properties"@, Json::Object(entries_view(properties@))),
        ("required"@, Json::Array(seq![Json::Str("message"@)])),
    ]);
    assert(crate::schema::input_schema_json(res.input_schema) =~= schema);
    assert(seq![("name"@, Json::Str("echo"@))] + crate::jsonrpc::opt_member(
        "description"@,
        Some(Json::Str("Echo tool"@)),
    ) + seq![("inputSchema"@, schema)] =~= seq![
        ("name"@, Json::Str("echo"@)),
        ("description"@, Json::Str("Echo tool"@)),
        ("inputSchema"@, schema),
    ]);
    assert(tool_json(res) =~= echo_tool_json());
    res
}

/// The configuration of the server that `run-server` starts: `MCP SSE
/// Server`, version `1.0.0`, offering the echo tool and nothing else.
pub fn echo_server_config() -> (res: ServerConfig)
    ensures
        res.name@ == "MCP SSE Server"@,
        res.version@ == "1.0.0"@,
        res.tools@.len() == 1,
        tool_json(res.tools@[0]) == echo_tool_json(),
        res.prompts@.len() == 0,
        res.resources@.len() == 0,
        res.timeout is None,
{
    ServerConfig::new().with_name("MCP SSE Server").with_version("1.0.0").with_tool(echo_tool())
}

/// What the echo tool answers to `params`: `{"result": <message>}` when
/// `params` has a string member `message`, else a protocol error.
pub fn echo_reply(params: &JsonValue) -> (res: Result<JsonValue, MCPError>)
    ensures
        match json_get(params@, "message"@) {
            Some(Json::Str(m)) => res matches Ok(v) && v@ == Json::Object(
                seq![("result"@, Json::Str(m))],
            ),
            _ => res matches Err(MCPError::Protocol(e)) && e@ == "Missing message parameter"@,
        },
{
    let message = match params.get("message") {
        Some(v) => v.as_str(),
        None => None,
    };
    match message {
        Some(m) => {
            let mut obj: Vec<(String, JsonValue)> = Vec::new();
            push_member(&mut obj, "result", JsonValue::String(m.clone()));
            assert(entries_view(obj@) =~= seq![("result"@, Json::Str(m@))]);
            Ok(JsonValue::Object(obj))
        },
        None => Err(MCPError::Protocol(owned("Missing message parameter"))),
    }
}

/// The transports a client connects over.
#[derive(Clone, Copy, PartialEq, Eq, Debug)]
pub enum ClientTransportKind {
    Sse,
    Stdio,
}

/// The transport `connect` uses: `sse` or `stdio`; any other fails with a
/// transport error.
pub fn client_transport(transport: &str) -> (res: Result<ClientTransportKind, MCPError>)
    ensures
        transport@ == "sse"@ ==> res == Ok::<ClientTransportKind, MCPError>(
            ClientTransportKind::Sse,
        ),
        transport@ == "stdio"@ ==> res == Ok::<ClientTransportKind, MCPError>(
            ClientTransportKind::Stdio,
        ),
        transport@ != "sse"@ && transport@ != "stdio"@ ==> (res matches Err(MCPError::Transport(m))
            && m@ == "Unsupported transport type: "@ + transport@),
{
    proof {
        reveal_strlit("stdio");
        reveal_strlit("sse");
        assert("stdio"@.len() != "sse"@.len());
    }
    if str_eq(transport, "sse") {
        Ok(ClientTransportKind::Sse)
    } else if str_eq(transport, "stdio") {
        Ok(ClientTransportKind::Stdio)
    } else {
        Err(MCPError::Transport(concat2("Unsupported transport type: ", transport)))
    }
}

/// The tool a client session calls.
#[derive(Debug)]
pub enum SessionCall {
    /// The named tool, with the parameters the command gave.
    Tool(String),
    /// No operation was named: the `hello` tool, with `null` parameters.
    Hello,
}

/// What a client session does for its operation: `interactive` and `repl`
/// are not supported; any other name is a tool to call; without an
/// operation it calls `hello`.
pub fn session_call(operation: Option<&str>) -> (res: Result<SessionCall, MCPError>)
    ensures
        match operation {
            None => res matches Ok(SessionCall::Hello),
            Some(op) => if op@ == "interactive"@ {
                res matches Err(MCPError::UnsupportedFeature(m)) && m@
                    == "Interactive session not implemented yet"@
            } else if op@ == "repl"@ {
                res matches Err(MCPError::UnsupportedFeature(m)) && m@ == "REPL not implemented yet"@
            } else {
                res matches Ok(SessionCall::Tool(t)) && t@ == op@
            },
        },
{
    match operation {
        None => Ok(SessionCall::Hello),
        Some(op) => {
            if str_eq(op, "interactive") {
                Err(MCPError::UnsupportedFeature(owned("Interactive session not implemented yet")))
            } else if str_eq(op, "repl") {
                Err(MCPError::UnsupportedFeature(owned("REPL not implemented yet")))
            } else {
                Ok(SessionCall::Tool(owned(op)))
            }
        },
    }
}

/// The name and description of a listed tool, when both are strings.
pub open spec fn listed_tool(t: Json) -> Option<(Seq<char>, Seq<char>)> {
    match (json_get(t, "name"@), json_get(t, "description"@)) {
        (Some(Json::Str(n)), Some(Json::Str(d))) => Some((n, d)),
        _ => None,
    }
}

/// The tools of a listing that have a string name and description, in
/// order.
pub open spec fn listed_tools_spec(items: Seq<Json>) -> Seq<(Seq<char>, Seq<char>)>
    decreases items.len(),
{
    if items.len() == 0 {
        seq![]
    } else {
        let rest = listed_tools_spec(items.drop_last());
        match listed_tool(items.last()) {
            Some(p) => rest.push(p),
            None => rest,
        }
    }
}

/// The views of name and description pairs.
pub open spec fn pairs_view(v: Seq<(String, String)>) -> Seq<(Seq<char>, Seq<char>)> {
    v.map_values(|p: (String, String)| (p.0@, p.1@))
}

/// The tools a session reports from the server's listing: `None` when the
/// listing is not an array, else the name and description of each tool
/// that has both as strings, in order.
pub fn listed_tools(response: &JsonValue) -> (res: Option<Vec<(String, String)>>)
    ensures
        match response@ {
            Json::Array(items) => res matches Some(v) && pairs_view(v@) == listed_tools_spec(items),
            _ => res is None,
        },
{
    match response {
        JsonValue::Array(items) => {
            let ghost js = items_view(items@);
            proof {
                lemma_items_view(items@);
            }
            let mut out: Vec<(String, String)> = Vec::new();
            let mut i: usize = 0;
            while i < items.len()
                invariant
                    *response == JsonValue::Array(*items),
                    js == items_view(items@),
                    js.len() == items@.len(),
                    forall|j: int| 0 <= j < items@.len() ==> #[trigger] js[j] == json_view(items@[j]),
                    i <= items@.len(),
                    pairs_view(out@) == listed_tools_spec(js.take(i as int)),
                decreases items@.len() - i,
            {
                let t = &items[i];
                assert(js.take(i + 1).drop_last() =~= js.take(i as int));
                assert(js.take(i + 1).last() == json_view(items@[i as int]));
                let name = match t.get("name") {
                    Some(v) => v.as_str(),
                    None => None,
                };
                let description = match t.get("description") {
                    Some(v) => v.as_str(),
                    None => None,
                };
                match (name, description) {
                    (Some(n), Some(d)) => {
                        let ghost prev = out@;
                        out.push((n.clone(), d.clone()));
                        assert(pairs_view(out@) =~= pairs_view(prev).push((n@, d@)));
                    },
                    _ => {},
                }
                i = i + 1;
            }
            assert(js.take(i as int) =~= js);
            Some(out)
        },
        _ => None,
    }
}

/// The error `validate` ends with: validating messages is not supported.
pub fn validation_unsupported() -> (res: MCPError)
    ensures
        res matches MCPError::UnsupportedFeature(m) && m@ == "Message validation not yet implemented"@,
{
    MCPError::UnsupportedFeature(owned("Message validation not yet implemented"))
}

/// The transport error a command reports when a step fails: `Failed to
/// <action>: <reason>`.
pub fn failure(action: &str, reason: &str) -> (res: MCPError)
    ensures
        res matches MCPError::Transport(m) && m@ == "Failed to "@ + action@ + ": "@ + reason@,
{
    let head = concat3("Failed to ", action, ": ");
    MCPError::Transport(concat2(head.as_str(), reason))
}

} // verus!
