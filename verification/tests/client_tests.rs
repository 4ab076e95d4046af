use mcpr::client::{
    initialize_outcome, join_results, session_outcome, session_step, shutdown_outcome, tool_call_outcome, Client,
    SessionEvent, SessionStep,
};
use mcpr::error::MCPError;
use mcpr::json::JsonValue;
use mcpr::jsonrpc::{JSONRPCError, JSONRPCErrorObject, JSONRPCMessage, JSONRPCResponse, RequestId};
use std::time::Duration;

fn s(text: &str) -> String {
    text.to_string()
}

fn obj(members: Vec<(&str, JsonValue)>) -> JsonValue {
    JsonValue::Object(members.into_iter().map(|(k, v)| (k.to_string(), v)).collect())
}

fn jstr(text: &str) -> JsonValue {
    JsonValue::String(text.to_string())
}

fn as_str(v: &JsonValue) -> Option<&str> {
    v.as_str().map(|x| x.as_str())
}

fn response(id: i64, result: JsonValue) -> JSONRPCMessage {
    JSONRPCMessage::Response(JSONRPCResponse { jsonrpc: s("2.0"), id: RequestId::Number(id), result })
}

fn initialize_response(id: i64) -> JSONRPCMessage {
    response(
        id,
        obj(vec![
            ("protocol_version", jstr("1.0")),
            (
                "server_info",
                obj(vec![("name", jstr("TestServer")), ("version", jstr("1.0.0")), ("protocol_version", jstr("1.0"))]),
            ),
            ("capabilities", obj(vec![("tools", JsonValue::Bool(true))])),
        ]),
    )
}

fn tool_call_response(id: i64, result: JsonValue) -> JSONRPCMessage {
    response(id, obj(vec![("result", result)]))
}

/// The id number and method of a request, and its parameters.
fn request_parts(m: JSONRPCMessage) -> (i64, String, Option<JsonValue>) {
    match m {
        JSONRPCMessage::Request(req) => match req.id {
            RequestId::Number(n) => (n, req.method, req.params),
            RequestId::String(_) => panic!("Expected a numeric id"),
        },
        _ => panic!("Expected request message"),
    }
}

#[test]
fn test_client_initialization() {
    let mut client = Client::new(());
    let (id, method, params) = request_parts(client.initialize_request());
    assert_eq!(id, 1);
    assert_eq!(method, "initialize");
    let params = params.unwrap();
    assert_eq!(params.get("protocol_version").and_then(as_str), Some("2024-11-05"));
    let result = initialize_outcome(initialize_response(1), "");
    assert!(result.is_ok(), "Client initialization should succeed");
    assert!(client.is_connected());
}

#[test]
fn client_test_tool_call() {
    let mut client = Client::new(());
    let _ = client.initialize_request();
    let params = obj(vec![("name", jstr("Test User"))]);
    let (id, method, sent) = request_parts(client.tool_call_request("hello", params));
    assert_eq!(id, 2);
    assert_eq!(method, "tool_call");
    let sent = sent.expect("Expected tool call params");
    assert_eq!(sent.get("name").and_then(as_str), Some("hello"));
    assert_eq!(sent.get("parameters").and_then(|p| p.get("name")).and_then(as_str), Some("Test User"));
    let result = tool_call_outcome(tool_call_response(2, jstr("Hello, Test User!")), "").unwrap();
    assert_eq!(as_str(&result), Some("Hello, Test User!"));
}

#[test]
fn test_shutdown() {
    let mut client = Client::new(());
    let _ = client.initialize_request();
    let (id, method, params) = request_parts(client.shutdown_request());
    assert_eq!(id, 2);
    assert_eq!(method, "shutdown");
    assert!(params.is_none());
    let result = shutdown_outcome(response(2, obj(vec![])), "");
    assert!(result.is_ok(), "Client shutdown should succeed");
}

#[test]
fn test_error_response_handling() {
    let err = JSONRPCMessage::Error(JSONRPCError {
        jsonrpc: s("2.0"),
        id: RequestId::Number(1),
        error: JSONRPCErrorObject { code: -32000, message: s("Test error"), data: None },
    });
    let text = match &err {
        JSONRPCMessage::Error(e) => format!("{:?}", e),
        _ => String::new(),
    };
    assert_eq!(
        text,
        "JSONRPCError { jsonrpc: \"2.0\", id: Number(1), error: JSONRPCErrorObject { code: -32000, message: \"Test error\", data: None } }"
    );
    match initialize_outcome(err, &text) {
        Err(MCPError::Protocol(msg)) => {
            assert!(msg.contains("Test error"), "Error message should contain the error from the response");
            assert_eq!(msg, format!("Initialization failed: {}", text));
        }
        other => panic!("Expected protocol error but got: {:?}", other),
    }
}

#[test]
fn client_test_concurrent_tool_calls() {
    let mut client = Client::new(());
    let _ = client.initialize_request();
    let calls = vec![("tool1", "value1"), ("tool2", "value2")];
    let mut ids = Vec::new();
    for (idx, (tool, value)) in calls.iter().enumerate() {
        let mut fork = client.fork(idx, ());
        let (id, method, params) = request_parts(fork.tool_call_request(tool, obj(vec![("param", jstr(value))])));
        assert_eq!(method, "tool_call");
        let params = params.unwrap();
        assert_eq!(params.get("name").and_then(as_str), Some(*tool));
        assert_eq!(params.get("parameters").and_then(|p| p.get("param")).and_then(as_str), Some(*value));
        ids.push(id);
    }
    assert_eq!(ids, vec![3, 4]);
    let r1 = tool_call_outcome(tool_call_response(2, jstr("Result 1")), "").unwrap();
    let r2 = tool_call_outcome(tool_call_response(3, jstr("Result 2")), "").unwrap();
    assert_eq!(as_str(&r1), Some("Result 1"));
    assert_eq!(as_str(&r2), Some("Result 2"));
}

#[test]
fn request_ids_count_up_from_one() {
    let mut client = Client::new(());
    assert!(!client.is_connected());
    let ids: Vec<i64> = vec![
        request_parts(client.initialize_request()).0,
        request_parts(client.tool_call_request("a", JsonValue::Null)).0,
        request_parts(client.shutdown_request()).0,
    ];
    assert_eq!(ids, vec![1, 2, 3]);
}

#[test]
fn client_timeout_setting() {
    let client = Client::new(()).with_timeout(Duration::from_millis(100));
    assert_eq!(client.timeout_duration(), Some(Duration::from_millis(100)));
    assert_eq!(Client::new(()).timeout_duration(), None);
}

#[test]
fn tool_call_without_result_member_fails() {
    match tool_call_outcome(response(2, obj(vec![("other", JsonValue::Null)])), "") {
        Err(MCPError::Protocol(m)) => assert_eq!(m, "Missing 'result' field in response"),
        other => panic!("Expected protocol error but got: {:?}", other),
    }
}

#[test]
fn unexpected_answer_type_fails() {
    let answer = mcpr::client::Client::new(()).shutdown_request();
    match shutdown_outcome(answer, "") {
        Err(MCPError::Protocol(m)) => assert_eq!(m, "Unexpected response type"),
        other => panic!("Expected protocol error but got: {:?}", other),
    }
}

#[test]
fn session_outcome_prefers_session_error() {
    let a: Result<u8, MCPError> = Err(MCPError::Timeout(s("t")));
    let b: Result<(), MCPError> = Err(MCPError::Transport(s("x")));
    assert!(matches!(session_outcome(a, Ok(())), Err(MCPError::Timeout(_))));
    assert!(matches!(session_outcome(Ok(1u8), b), Err(MCPError::Transport(_))));
    assert!(matches!(session_outcome::<u8>(Ok(1u8), Ok(())), Ok(1)));
}

#[test]
fn error_display_texts() {
    assert_eq!(MCPError::Serialization(s("a")).to_string(), "JSON serialization error: a");
    assert_eq!(MCPError::Deserialization(s("b")).to_string(), "JSON deserialization error: b");
    assert_eq!(MCPError::Transport(s("c")).to_string(), "Transport error: c");
    assert_eq!(MCPError::Protocol(s("d")).to_string(), "Protocol error: d");
    assert_eq!(MCPError::UnsupportedFeature(s("e")).to_string(), "Unsupported feature: e");
    assert_eq!(MCPError::Timeout(s("f")).to_string(), "Timeout error: f");
}

#[test]
fn batch_forks_and_results_keep_order() {
    let mut client = Client::new(0u8);
    let _ = client.initialize_request();
    let clients = client.fork_batch(vec![10u8, 11u8, 12u8]);
    let ids: Vec<i64> = clients.iter().map(|c| c.peek_next_request_id()).collect();
    assert_eq!(ids, vec![3, 4, 5]);
    let transports: Vec<u8> = clients.iter().map(|c| *c.transport()).collect();
    assert_eq!(transports, vec![10, 11, 12]);
    let joined: Vec<Result<Result<u8, MCPError>, String>> =
        vec![Ok(Ok(1)), Err(s("task 2 panicked")), Ok(Err(MCPError::Protocol(s("p"))))];
    let results = join_results(joined);
    assert_eq!(results.len(), 3);
    assert!(matches!(results[0], Ok(1)));
    match &results[1] {
        Err(MCPError::Transport(m)) => assert_eq!(m, "Task join error: task 2 panicked"),
        other => panic!("unexpected {:?}", other),
    }
    assert!(matches!(results[2], Err(MCPError::Protocol(_))));
}

#[test]
fn session_steps_in_order() {
    let s1 = session_step::<u8>(SessionStep::Initialize, SessionEvent::Initialized(Ok(())));
    assert!(matches!(s1, SessionStep::RunBody));
    let s2 = session_step(s1, SessionEvent::BodyDone(Ok(7u8)));
    assert!(matches!(s2, SessionStep::Shutdown(Ok(7))));
    let s3 = session_step(s2, SessionEvent::ShutdownDone(Err(MCPError::Transport(s("closed")))));
    assert!(matches!(s3, SessionStep::Finished(Err(MCPError::Transport(_)))));
    let failed = session_step::<u8>(SessionStep::Initialize, SessionEvent::Initialized(Err(MCPError::Timeout(s("t")))));
    assert!(matches!(failed, SessionStep::Finished(Err(MCPError::Timeout(_)))));
    let still = session_step::<u8>(SessionStep::Finished(Ok(1)), SessionEvent::BodyDone(Ok(2)));
    assert!(matches!(still, SessionStep::Finished(Ok(1))));
}

#[test]
fn error_answers_carry_their_text() {
    let err = JSONRPCMessage::Error(JSONRPCError {
        jsonrpc: s("2.0"),
        id: RequestId::Number(2),
        error: JSONRPCErrorObject { code: -32601, message: s("Method not found: x"), data: None },
    });
    match tool_call_outcome(err, "E") {
        Err(e) => assert_eq!(e.to_string(), "Protocol error: Tool call failed: E"),
        other => panic!("Expected protocol error but got: {:?}", other),
    }
    let err = JSONRPCMessage::Error(JSONRPCError {
        jsonrpc: s("2.0"),
        id: RequestId::Number(3),
        error: JSONRPCErrorObject { code: -32000, message: s("no"), data: None },
    });
    match shutdown_outcome(err, "F") {
        Err(e) => assert_eq!(e.to_string(), "Protocol error: Shutdown failed: F"),
        other => panic!("Expected protocol error but got: {:?}", other),
    }
}
