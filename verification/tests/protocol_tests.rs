use mcpr::json::{JsonNumber, JsonValue};
use mcpr::jsonrpc::{JSONRPCMessage, JSONRPCNotification, JSONRPCRequest, RequestId};
use mcpr::text::{replace_str, u64_to_decimal};
use mcpr::transport::http::{
    endpoint_event, is_request, json_response, message_event, message_received, parse_post_request,
    parse_sse_request, post_accepted, post_verdict, read_post_body, read_session_post_body, request_kind,
    welcome_message, Body, PostRequest, PostVerdict, RequestKind, SseRequest,
};
use mcpr::transport::session::should_forward;

fn obj(members: Vec<(&str, JsonValue)>) -> JsonValue {
    JsonValue::Object(members.into_iter().map(|(k, v)| (k.to_string(), v)).collect())
}

fn jstr(text: &str) -> JsonValue {
    JsonValue::String(text.to_string())
}

fn as_str(v: &JsonValue) -> Option<&str> {
    v.as_str().map(|x| x.as_str())
}

#[test]
fn request_kinds() {
    assert!(matches!(request_kind("GET /events HTTP/1.1"), RequestKind::Get));
    assert!(matches!(request_kind("POST /messages HTTP/1.1"), RequestKind::Post));
    assert!(matches!(request_kind("PUT / HTTP/1.1"), RequestKind::Other));
}

#[test]
fn sse_request_parsing() {
    match parse_sse_request("GET /events HTTP/1.1\r\nHost: example.org:8000\r\n\r\n") {
        SseRequest::Accept { host } => assert_eq!(host, "example.org:8000"),
        other => panic!("unexpected {:?}", matches!(other, SseRequest::Ignore)),
    }
    match parse_sse_request("GET /events HTTP/1.1\r\n\r\n") {
        SseRequest::Accept { host } => assert_eq!(host, "localhost"),
        _ => panic!("expected accept"),
    }
    assert!(matches!(parse_sse_request("GET /other HTTP/1.1\r\n\r\n"), SseRequest::NotFound));
    assert!(matches!(parse_sse_request(""), SseRequest::Ignore));
    assert!(matches!(parse_sse_request("GET"), SseRequest::Ignore));
}

#[test]
fn post_request_parsing() {
    let req = "POST /messages?sessionId=abc HTTP/1.1\r\nContent-Length: 7\r\n\r\n{\"a\":1}";
    match parse_post_request(req) {
        PostRequest::Accept { session_id, body } => {
            assert_eq!(session_id.as_deref(), Some("abc"));
            match body {
                Body::Text(t) => assert_eq!(t, "{\"a\":1}"),
                Body::ReadMore(n) => panic!("unexpected read of {}", n),
            }
        }
        _ => panic!("expected accept"),
    }
    match parse_post_request("POST /messages HTTP/1.1\r\nContent-Length: 12\r\n\r\n") {
        PostRequest::Accept { session_id, body } => {
            assert!(session_id.is_none());
            assert!(matches!(body, Body::ReadMore(12)));
        }
        _ => panic!("expected accept"),
    }
    assert!(matches!(parse_post_request("POST /elsewhere HTTP/1.1\r\n\r\n"), PostRequest::NotFound));
    assert!(matches!(parse_post_request(""), PostRequest::Ignore));
}

#[test]
fn post_bodies() {
    match read_post_body("POST /messages HTTP/1.1\r\nHost: x\r\n\r\nline1\nline2") {
        Body::Text(t) => assert_eq!(t, "line1\nline2"),
        Body::ReadMore(_) => panic!("expected text"),
    }
    match read_session_post_body("POST /messages HTTP/1.1\r\nContent-Length: 5\r\n\r\n") {
        Body::ReadMore(n) => assert_eq!(n, 5),
        Body::Text(_) => panic!("expected a read"),
    }
    match read_session_post_body("POST /messages HTTP/1.1\r\n\r\n{}") {
        Body::Text(t) => assert_eq!(t, "{}"),
        Body::ReadMore(_) => panic!("expected text"),
    }
}

#[test]
fn post_verdicts() {
    let request = obj(vec![("method", jstr("ping"))]);
    let reply = obj(vec![("result", JsonValue::Null)]);
    assert!(matches!(post_verdict("  ", None), PostVerdict::EmptyBody));
    assert!(matches!(post_verdict("{oops", None), PostVerdict::InvalidJson));
    assert!(matches!(post_verdict("{...}", Some(&request)), PostVerdict::Request));
    assert!(matches!(post_verdict("{...}", Some(&reply)), PostVerdict::Forward));
    assert!(is_request(Some(&request)));
    assert!(!is_request(Some(&reply)));
    assert!(!is_request(None));
}

#[test]
fn forwarding_to_sessions() {
    let for_a = obj(vec![("session", jstr("a"))]);
    let for_all = obj(vec![("x", JsonValue::Null)]);
    assert!(should_forward(Some(&for_a), "a"));
    assert!(!should_forward(Some(&for_a), "b"));
    assert!(should_forward(Some(&for_all), "b"));
    assert!(should_forward(None, "b"));
}

#[test]
fn framing() {
    assert_eq!(
        endpoint_event("localhost:8000", "s1"),
        "event: endpoint\ndata: http://localhost:8000/messages?sessionId=s1\n\n"
    );
    assert_eq!(message_event("{}"), "event: message\ndata: {}\n\n");
    assert_eq!(
        json_response("{\"é\":1}"),
        "HTTP/1.1 200 OK\r\nContent-Type: application/json\r\nContent-Length: 8\r\n\r\n{\"é\":1}"
    );
    let w = welcome_message("s1");
    assert_eq!(w.get("method").and_then(as_str), Some("welcome"));
    assert_eq!(w.get("params").and_then(|p| p.get("session")).and_then(as_str), Some("s1"));
    assert!(matches!(w.get("id"), Some(JsonValue::Number(JsonNumber::Int(0)))));
    assert_eq!(post_accepted().get("message").and_then(as_str), Some("Message received and processed"));
    assert_eq!(message_received().get("status").and_then(as_str), Some("success"));
    assert!(matches!(message_received().get("success"), Some(JsonValue::Bool(true))));
    assert!(mcpr::transport::http::INVALID_JSON_BODY.ends_with("\r\n\r\nInvalid JSON body\n"));
    assert!(mcpr::transport::http::INVALID_JSON_BODY.contains("Content-Length: 16\r\n"));
}

#[test]
fn message_json_round_trip() {
    let msg = JSONRPCMessage::Request(JSONRPCRequest {
        jsonrpc: "2.0".to_string(),
        id: RequestId::String("r-1".to_string()),
        method: "tools/list".to_string(),
        params: Some(obj(vec![("cursor", jstr("c"))])),
    });
    let j = msg.to_json();
    assert_eq!(j.get("jsonrpc").and_then(as_str), Some("2.0"));
    assert_eq!(j.get("id").and_then(as_str), Some("r-1"));
    match JSONRPCMessage::from_json(&j) {
        Some(JSONRPCMessage::Request(r)) => {
            assert!(matches!(r.id, RequestId::String(ref s) if s == "r-1"));
            assert_eq!(r.method, "tools/list");
            assert!(r.params.is_some());
        }
        other => panic!("unexpected {:?}", other),
    }
    let note = JSONRPCMessage::Notification(JSONRPCNotification {
        jsonrpc: "2.0".to_string(),
        method: "notify".to_string(),
        params: None,
    });
    assert!(matches!(JSONRPCMessage::from_json(&note.to_json()), Some(JSONRPCMessage::Notification(_))));
    assert!(JSONRPCMessage::from_json(&JsonValue::Null).is_none());
}

#[test]
fn json_lookups() {
    let v = obj(vec![("a", jstr("first")), ("a", jstr("second")), ("n", JsonValue::Null)]);
    assert_eq!(v.get("a").and_then(as_str), Some("first"));
    assert!(v.get("n").unwrap().is_null());
    assert!(v.get("missing").is_none());
    assert!(jstr("x").get("a").is_none());
    let copy = v.deep_clone();
    assert_eq!(copy.get("a").and_then(as_str), Some("first"));
}

#[test]
fn text_helpers() {
    assert_eq!(u64_to_decimal(0), "0");
    assert_eq!(u64_to_decimal(18446744073709551615), "18446744073709551615");
    assert_eq!(replace_str("aaa", "aa", "b"), "ba");
}
