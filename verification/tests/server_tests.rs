use mcpr::cli::echo_reply;
use mcpr::constants::LATEST_PROTOCOL_VERSION;
use mcpr::error::MCPError;
use mcpr::json::{JsonNumber, JsonValue};
use mcpr::jsonrpc::{JSONRPCMessage, JSONRPCNotification, JSONRPCRequest, RequestId};
use mcpr::schema::{Prompt, PromptArgument, Resource, Tool, ToolInputSchema};
use mcpr::server::{LoopStep, Server, ServerAction, ServerConfig};

fn s(text: &str) -> String {
    text.to_string()
}

fn obj(members: Vec<(&str, JsonValue)>) -> JsonValue {
    JsonValue::Object(members.into_iter().map(|(k, v)| (k.to_string(), v)).collect())
}

fn jstr(text: &str) -> JsonValue {
    JsonValue::String(text.to_string())
}

fn request(id: i64, method: &str, params: Option<JsonValue>) -> JSONRPCMessage {
    JSONRPCMessage::Request(JSONRPCRequest {
        jsonrpc: s("2.0"),
        id: RequestId::Number(id),
        method: s(method),
        params,
    })
}

fn initialize_request() -> JSONRPCMessage {
    request(1, "initialize", Some(obj(vec![("protocol_version", jstr(LATEST_PROTOCOL_VERSION))])))
}

fn echo_tool() -> Tool {
    Tool {
        name: s("echo"),
        description: Some(s("Echo tool")),
        input_schema: ToolInputSchema {
            schema_type: s("object"),
            properties: Some(vec![(
                s("message"),
                obj(vec![("type", jstr("string")), ("description", jstr("Message to echo"))]),
            )]),
            required: Some(vec![s("message")]),
        },
    }
}

fn test_config() -> ServerConfig {
    ServerConfig::new().with_name("TestServer").with_version("1.0.0").with_tool(echo_tool())
}

fn as_str(v: &JsonValue) -> Option<&str> {
    v.as_str().map(|x| x.as_str())
}

/// The response a reply action sends, with its id number and result.
fn reply(action: ServerAction) -> (i64, JsonValue) {
    match action {
        ServerAction::Reply(JSONRPCMessage::Response(resp)) => match resp.id {
            RequestId::Number(n) => (n, resp.result),
            RequestId::String(_) => panic!("Expected a numeric id"),
        },
        other => panic!("Expected response message, got {:?}", other),
    }
}

fn initialized_server(config: ServerConfig) -> Server<u8> {
    let mut server: Server<u8> = Server::new(config);
    let _ = server.handle_message(initialize_request());
    server
}

#[test]
fn test_server_initialization() {
    let mut server: Server<u8> = Server::new(test_config());
    let (id, result) = reply(server.handle_message(initialize_request()));
    assert_eq!(id, 1);
    let protocol_version = result.get("protocolVersion").and_then(as_str).expect("Missing protocolVersion string");
    assert_eq!(protocol_version, LATEST_PROTOCOL_VERSION);
    let server_info = result.get("serverInfo").expect("Missing serverInfo");
    assert_eq!(server_info.get("name").and_then(as_str), Some("TestServer"));
    assert_eq!(server_info.get("version").and_then(as_str), Some("1.0.0"));
    assert!(result.get("capabilities").and_then(|c| c.get("tools")).is_some(), "Tools capability missing");
}

#[test]
fn test_tools_list() {
    let mut server = initialized_server(test_config());
    let (id, result) = reply(server.handle_message(request(2, "tools/list", None)));
    assert_eq!(id, 2);
    match result.get("tools") {
        Some(JsonValue::Array(tools)) => {
            assert_eq!(tools.len(), 1, "Expected 1 tool");
            assert_eq!(tools[0].get("name").and_then(as_str), Some("echo"), "Tool should be named 'echo'");
        }
        _ => panic!("Missing tools array"),
    }
}

#[test]
fn server_test_tool_call() {
    let mut server = initialized_server(test_config());
    server.register_tool_handler("echo", 7u8).unwrap();
    let params = obj(vec![("name", jstr("echo")), ("arguments", obj(vec![("message", jstr("Hello, world!"))]))]);
    let action = server.handle_message(request(2, "tools/call", Some(params)));
    let (id, params) = match action {
        ServerAction::DecodeToolCall { id, params } => (id, params),
        other => panic!("Expected the parameters to read, got {:?}", other),
    };
    let name = params.get("name").and_then(as_str).unwrap().to_string();
    let arguments = params.get("arguments").unwrap().deep_clone();
    let action = Server::<u8>::tool_call_action(id, Ok((name, arguments)));
    let (id, name, arguments) = match action {
        ServerAction::CallTool { id, name, arguments } => (id, name, arguments),
        other => panic!("Expected a tool call, got {:?}", other),
    };
    assert_eq!(name, "echo");
    assert_eq!(*server.find_handler(&name).unwrap(), 7u8);
    let value = echo_reply(&arguments).unwrap();
    let text = format!("{{\n  \"result\": \"{}\"\n}}", value.get("result").and_then(as_str).unwrap());
    let (n, result) = reply(ServerAction::Reply(Server::<u8>::tool_call_reply(id, Ok(text))));
    assert_eq!(n, 2);
    match result.get("content") {
        Some(JsonValue::Array(content)) => {
            assert!(!content.is_empty(), "Content array should not be empty");
            let text = content[0].get("text").and_then(as_str).expect("Missing text in content");
            assert!(text.contains("Hello, world!"), "Response should contain our message");
        }
        _ => panic!("Missing content array"),
    }
}

#[test]
fn server_test_concurrent_tool_calls() {
    let calls = vec!["Message 1", "Message 2", "Message 3"];
    let results: Vec<Result<JsonValue, MCPError>> =
        calls.iter().map(|m| echo_reply(&obj(vec![("message", jstr(m))]))).collect();
    assert_eq!(results.len(), 3, "Should have 3 results");
    for (i, result) in results.iter().enumerate() {
        let value = result.as_ref().unwrap();
        let result_str = value.get("result").and_then(as_str).expect("Missing result string");
        assert_eq!(result_str, format!("Message {}", i + 1), "Result should match expected message");
    }
}

#[test]
fn test_ping() {
    let mut server = initialized_server(test_config());
    let (id, result) = reply(server.handle_message(request(2, "ping", None)));
    assert_eq!(id, 2);
    match result {
        JsonValue::Object(members) => assert_eq!(members.len(), 0, "Result should be an empty object"),
        _ => panic!("Result should be an object"),
    }
}

#[test]
fn test_cancel_request() {
    let mut server = initialized_server(test_config());
    let params = obj(vec![("id", JsonValue::Number(JsonNumber::Int(999)))]);
    let (id, result) = reply(server.handle_message(request(2, "$/cancelRequest", Some(params))));
    assert_eq!(id, 2);
    assert!(result.is_null(), "Result should be null");
}

#[test]
fn test_prompts_list() {
    let config = ServerConfig::new().with_name("TestServer").with_version("1.0.0").with_prompt(Prompt {
        name: s("test_prompt"),
        description: Some(s("A test prompt")),
        arguments: Some(vec![PromptArgument {
            name: s("param1"),
            description: Some(s("Test parameter")),
            required: Some(true),
        }]),
    });
    let mut server = initialized_server(config);
    let (id, result) = reply(server.handle_message(request(2, "prompts/list", None)));
    assert_eq!(id, 2);
    match result.get("prompts") {
        Some(JsonValue::Array(prompts)) => {
            assert_eq!(prompts.len(), 1);
            assert_eq!(prompts[0].get("name").and_then(as_str), Some("test_prompt"));
            assert_eq!(prompts[0].get("description").and_then(as_str), Some("A test prompt"));
            match prompts[0].get("arguments") {
                Some(JsonValue::Array(args)) => {
                    assert_eq!(args.len(), 1);
                    assert_eq!(args[0].get("name").and_then(as_str), Some("param1"));
                }
                _ => panic!("Expected prompt arguments"),
            }
        }
        _ => panic!("Expected prompts array"),
    }
}

#[test]
fn test_resources_list() {
    let config = ServerConfig::new().with_name("TestServer").with_version("1.0.0").with_resource(Resource {
        uri: s("file:///test/resource.txt"),
        name: s("test_resource"),
        description: Some(s("A test resource")),
        mime_type: Some(s("text/plain")),
        size: Some(42),
        annotations: None,
    });
    let mut server = initialized_server(config);
    let (id, result) = reply(server.handle_message(request(2, "resources/list", None)));
    assert_eq!(id, 2);
    match result.get("resources") {
        Some(JsonValue::Array(resources)) => {
            assert_eq!(resources.len(), 1);
            assert_eq!(resources[0].get("name").and_then(as_str), Some("test_resource"));
            assert_eq!(resources[0].get("description").and_then(as_str), Some("A test resource"));
            assert_eq!(resources[0].get("uri").and_then(as_str), Some("file:///test/resource.txt"));
            assert_eq!(resources[0].get("mimeType").and_then(as_str), Some("text/plain"));
        }
        _ => panic!("Expected resources array"),
    }
}

#[test]
fn unknown_method_gets_method_not_found() {
    let mut server = initialized_server(test_config());
    match server.handle_message(request(5, "frobnicate", None)) {
        ServerAction::Reply(JSONRPCMessage::Error(err)) => {
            assert!(matches!(err.id, RequestId::Number(5)));
            assert_eq!(err.error.code, -32601);
            assert_eq!(err.error.message, "Method not found: frobnicate");
        }
        other => panic!("Expected an error response, got {:?}", other),
    }
}

#[test]
fn cancel_without_id_is_invalid_params() {
    let mut server = initialized_server(test_config());
    match server.handle_message(request(3, "$/cancelRequest", Some(obj(vec![])))) {
        ServerAction::Reply(JSONRPCMessage::Error(err)) => {
            assert_eq!(err.error.code, -32602);
            assert_eq!(err.error.message, "Missing required parameter 'id'");
        }
        other => panic!("Expected an error response, got {:?}", other),
    }
    match server.handle_message(request(4, "$/cancelRequest", None)) {
        ServerAction::Reply(JSONRPCMessage::Error(err)) => {
            assert_eq!(err.error.code, -32602);
            assert_eq!(err.error.message, "Missing required parameters");
        }
        other => panic!("Expected an error response, got {:?}", other),
    }
}

#[test]
fn shutdown_request_stops_the_server() {
    let mut server = initialized_server(test_config());
    assert!(!server.is_shutdown_requested());
    match server.handle_message(request(9, "shutdown", None)) {
        ServerAction::Shutdown(JSONRPCMessage::Response(resp)) => {
            assert!(matches!(resp.id, RequestId::Number(9)));
            assert!(matches!(resp.result, JsonValue::Object(ref m) if m.is_empty()));
        }
        other => panic!("Expected a shutdown reply, got {:?}", other),
    }
    assert!(server.is_shutdown_requested());
}

#[test]
fn notifications_get_no_answer() {
    let mut server = initialized_server(test_config());
    let note = JSONRPCMessage::Notification(JSONRPCNotification {
        jsonrpc: s("2.0"),
        method: s("notifications/initialized"),
        params: None,
    });
    assert!(matches!(server.handle_message(note), ServerAction::Idle));
}

#[test]
fn tools_call_without_params_is_reported() {
    let mut server = initialized_server(test_config());
    match server.handle_message(request(2, "tools/call", None)) {
        ServerAction::Report(e) => {
            assert_eq!(e.to_string(), "Protocol error: Missing parameters in tools/call request")
        }
        other => panic!("Expected a report, got {:?}", other),
    }
}

#[test]
fn register_unknown_tool_fails() {
    let mut server: Server<u8> = Server::new(test_config());
    match server.register_tool_handler("missing", 1u8) {
        Err(MCPError::Protocol(m)) => assert_eq!(m, "Tool 'missing' not found in server configuration"),
        other => panic!("Expected a protocol error, got {:?}", other),
    }
    match server.find_handler("echo") {
        Err(MCPError::Protocol(m)) => assert_eq!(m, "No handler registered for tool 'echo'"),
        other => panic!("Expected a protocol error, got {:?}", other),
    }
}

#[test]
fn later_registration_replaces_handler() {
    let mut server: Server<u8> = Server::new(test_config());
    server.register_tool_handler("echo", 1u8).unwrap();
    server.register_tool_handler("echo", 2u8).unwrap();
    assert_eq!(*server.find_handler("echo").unwrap(), 2u8);
}

#[test]
fn failed_tool_call_reply() {
    let reply = Server::<u8>::tool_call_reply(RequestId::Number(4), Err(MCPError::Protocol(s("boom"))));
    match reply {
        JSONRPCMessage::Error(err) => {
            assert!(matches!(err.id, RequestId::Number(4)));
            assert_eq!(err.error.code, -32000);
            assert_eq!(err.error.message, "Tool execution failed: Protocol error: boom");
        }
        other => panic!("Expected an error response, got {:?}", other),
    }
}

#[test]
fn server_config_defaults() {
    let c = ServerConfig::new();
    assert_eq!(c.name, "MCP Server");
    assert_eq!(c.version, "1.0.0");
    assert!(c.tools.is_empty() && c.prompts.is_empty() && c.resources.is_empty());
    assert!(c.timeout.is_none());
    let d = ServerConfig::default().with_timeout(std::time::Duration::from_secs(5));
    assert_eq!(d.timeout, Some(std::time::Duration::from_secs(5)));
}

#[test]
fn unreadable_tool_call_is_reported() {
    match Server::<u8>::tool_call_action(RequestId::Number(3), Err(s("missing field `name`"))) {
        ServerAction::Report(e) => {
            assert_eq!(e.to_string(), "Protocol error: Invalid tools/call parameters: missing field `name`")
        }
        other => panic!("Expected a report, got {:?}", other),
    }
}

#[test]
fn serving_loop_skips_failed_reads_and_stops_after_shutdown() {
    let mut server: Server<u8> = Server::new(ServerConfig::new().with_name("TestServer").with_version("1.0.0"));
    assert_eq!(server.next_step(), LoopStep::Receive);
    match server.on_received(Err(MCPError::Transport(s("No messages available")))) {
        ServerAction::Report(e) => assert_eq!(e.to_string(), "Transport error: No messages available"),
        other => panic!("Expected a report, got {:?}", other),
    }
    assert_eq!(server.next_step(), LoopStep::Receive);
    let (id, result) = reply(server.on_received(Ok(request(2, "ping", None))));
    assert_eq!(id, 2);
    assert!(matches!(result, JsonValue::Object(ref m) if m.is_empty()));
    assert_eq!(server.next_step(), LoopStep::Receive);
    match server.on_received(Ok(request(999, "shutdown", None))) {
        ServerAction::Shutdown(JSONRPCMessage::Response(resp)) => {
            assert!(matches!(resp.id, RequestId::Number(999)));
            assert!(matches!(resp.result, JsonValue::Object(ref m) if m.is_empty()));
        }
        other => panic!("Expected the shutdown answer, got {:?}", other),
    }
    assert_eq!(server.next_step(), LoopStep::Close);
    assert!(server.is_shutdown_requested());
}
