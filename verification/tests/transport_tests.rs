use mcpr::error::MCPError;
use mcpr::transport::connection::Connection;
use mcpr::transport::session::SessionManager;
use mcpr::transport::sse_client::{EventAction, ReconnectState, SSEClientTransport};
use mcpr::transport::sse_server::{routes_posted_message, SSEServerTransport, SSETransport};
use mcpr::transport::stdio::{frame_line, StdioTransport};
use mcpr::transport::websocket::{Frame, StartPlan, WebSocketTransport};
use std::time::Duration;

#[test]
fn test_sse_transport_with_auth() {
    let transport = SSEClientTransport::new("http://localhost:8000/events").unwrap().with_auth_token("test-token");
    assert!(transport.has_auth_token());
    assert_eq!(transport.get_auth_token(), Some("test-token"));
}

#[test]
fn test_sse_transport_reconnect_params() {
    let transport = SSEClientTransport::new("http://localhost:8000/events").unwrap().with_reconnect_params(10, 3);
    assert_eq!(transport.get_reconnect_interval(), Duration::from_secs(10));
    assert_eq!(transport.get_max_reconnect_attempts(), 3);
}

#[test]
fn test_sse_transport_clone() {
    let transport = SSEClientTransport::new("http://localhost:8000/events")
        .unwrap()
        .with_auth_token("test-token")
        .with_reconnect_params(10, 3);
    let cloned = transport.clone();
    assert_eq!(cloned.get_auth_token(), Some("test-token"));
    assert_eq!(cloned.get_reconnect_interval(), Duration::from_secs(10));
    assert_eq!(cloned.get_max_reconnect_attempts(), 3);
}

#[test]
fn sse_client_defaults() {
    let t = SSEClientTransport::new("http://localhost:8000/events").unwrap();
    assert!(!t.has_auth_token());
    assert_eq!(t.get_auth_token(), None);
    assert_eq!(t.get_reconnect_interval(), Duration::from_secs(3));
    assert_eq!(t.get_max_reconnect_attempts(), 5);
    assert_eq!(t.event_source_url(), "http://localhost:8000/events");
    assert!(!t.is_connected());
    assert!(t.authorization().is_none());
}

#[test]
fn sse_client_rejects_bad_url() {
    match SSEClientTransport::new("not a url") {
        Err(MCPError::Transport(m)) => {
            assert!(m.starts_with("Invalid event source URL: "), "{}", m);
            assert!(m.len() > "Invalid event source URL: ".len());
        }
        other => panic!("expected a transport error, got {:?}", other.is_ok()),
    }
}

#[test]
fn sse_client_parses_url_through_the_url_crate() {
    let t = SSEClientTransport::new("HTTP://LocalHost:8000/a/../events").unwrap();
    assert_eq!(t.event_source_url(), "http://localhost:8000/events");
}

#[test]
fn sse_client_bearer_header() {
    let t = SSEClientTransport::new("http://localhost:8000/events").unwrap().with_auth_token("abc");
    assert_eq!(t.authorization().as_deref(), Some("Bearer abc"));
}

#[test]
fn sse_client_send_needs_connection_and_endpoint() {
    let mut t = SSEClientTransport::new("http://localhost:8000/events").unwrap();
    match t.send_target() {
        Err(MCPError::Transport(m)) => assert_eq!(m, "Transport not connected"),
        _ => panic!("expected not connected"),
    }
    match t.check_receive() {
        Err(MCPError::Transport(m)) => assert_eq!(m, "Transport not connected"),
        _ => panic!("expected not connected"),
    }
    assert!(t.begin_start());
    assert!(!t.begin_start());
    assert!(t.check_receive().is_ok());
    match t.send_target() {
        Err(MCPError::Transport(m)) => assert_eq!(m, "Send URL not received from server"),
        _ => panic!("expected missing endpoint"),
    }
    assert!(matches!(t.on_event("endpoint", "http://localhost:8000/messages?session_id=1"), EventAction::EndpointSet));
    assert_eq!(t.send_target().unwrap(), "http://localhost:8000/messages?session_id=1");
    assert!(t.mark_closed());
    assert!(!t.mark_closed());
}

#[test]
fn sse_client_event_handling() {
    let mut t = SSEClientTransport::new("http://localhost:8000/events").unwrap();
    match t.on_event("message", "{\"id\":1}") {
        EventAction::Deliver(d) => assert_eq!(d, "{\"id\":1}"),
        other => panic!("expected delivery, got {:?}", other),
    }
    match t.on_event("", "plain") {
        EventAction::Deliver(d) => assert_eq!(d, "plain"),
        other => panic!("expected delivery, got {:?}", other),
    }
    assert!(matches!(t.on_event("heartbeat", "x"), EventAction::Ignore));
    match t.on_event("endpoint", "::bad::") {
        EventAction::InvalidEndpoint(d) => assert_eq!(d, "::bad::"),
        other => panic!("expected an invalid endpoint, got {:?}", other),
    }
}

#[test]
fn reconnect_gives_up_after_limit() {
    let t = SSEClientTransport::new("http://localhost:8000/events").unwrap().with_reconnect_params(1, 3);
    let mut r = t.reconnect_state();
    let mut attempts = 0;
    while !r.should_give_up() {
        r.record_failure();
        attempts += 1;
    }
    assert_eq!(attempts, 3);
    r.record_success();
    assert!(!r.should_give_up());
    assert!(ReconnectState::new(0).should_give_up());
}

#[test]
fn sse_server_transport_lifecycle() {
    let mut server = SSEServerTransport::new("http://127.0.0.1:0").unwrap();
    assert_eq!(server.bind_address(), "127.0.0.1:0");
    match server.check_connected() {
        Err(MCPError::Transport(m)) => assert_eq!(m, "Transport not connected"),
        _ => panic!("expected not connected"),
    }
    assert!(server.begin_start());
    assert!(server.is_connected());
    assert!(server.check_connected().is_ok());
    assert!(server.clone().is_connected());
    assert!(server.mark_closed());
    assert!(!server.is_connected());
}

#[test]
fn sse_server_default_address_parts() {
    let server = SSEServerTransport::new("http://0.0.0.0:8080").unwrap();
    assert_eq!(server.bind_address(), "0.0.0.0:8080");
    let server = SSEServerTransport::new("http://example.com").unwrap();
    assert_eq!(server.bind_address(), "example.com:8000");
    match SSEServerTransport::new("nope") {
        Err(MCPError::Transport(m)) => assert!(m.starts_with("Invalid server URL: ")),
        _ => panic!("expected an invalid URL"),
    }
}

#[test]
fn sse_transport_server_mode() {
    let mut t = SSETransport::new_server("http://127.0.0.1:8000").unwrap();
    assert_eq!(t.bind_address(), "127.0.0.1:8000");
    let mut sessions: SessionManager<u32> = SessionManager::new();
    match t.broadcast_targets(&sessions, None) {
        Err(MCPError::Transport(m)) => assert_eq!(m, "Transport not connected"),
        other => panic!("unexpected {:?}", other),
    }
    assert!(t.begin_start());
    match t.broadcast_targets(&sessions, None) {
        Err(MCPError::Transport(m)) => assert_eq!(m, "Failed to broadcast message"),
        other => panic!("unexpected {:?}", other),
    }
    sessions.insert_session("a".to_string(), 1);
    sessions.insert_session("b".to_string(), 2);
    let mut all = t.broadcast_targets(&sessions, None).unwrap();
    all.sort();
    assert_eq!(all, vec!["a".to_string(), "b".to_string()]);
    let for_b = mcpr::json::JsonValue::Object(vec![(
        "session".to_string(),
        mcpr::json::JsonValue::String("b".to_string()),
    )]);
    assert_eq!(t.broadcast_targets(&sessions, Some(&for_b)).unwrap(), vec!["b".to_string()]);
    assert_eq!(*t.session_target(&sessions, "a").unwrap(), 1);
    match t.session_target(&sessions, "zz") {
        Err(MCPError::Transport(m)) => assert_eq!(m, "Session zz not found"),
        other => panic!("unexpected {:?}", other),
    }
    assert!(t.clone().is_connected());
    assert!(t.mark_closed());
    match SSETransport::new_server("nope") {
        Err(MCPError::Transport(m)) => assert!(m.starts_with("Invalid server URL: ")),
        _ => panic!("expected an invalid URL"),
    }
}

#[test]
fn sse_server_broadcast_targets() {
    let mut server = SSEServerTransport::new("http://127.0.0.1:0").unwrap();
    let sessions: SessionManager<u32> = SessionManager::new();
    server.begin_start();
    match server.broadcast_targets(&sessions, None) {
        Err(MCPError::Transport(m)) => assert_eq!(m, "Failed to broadcast message: channel closed"),
        other => panic!("unexpected {:?}", other),
    }
}

#[test]
fn sessions_create_route_and_remove() {
    let mut sessions: SessionManager<u32> = SessionManager::new();
    assert_eq!(sessions.session_count(), 0);
    let id = sessions.create_session(7);
    assert_eq!(id.len(), 36);
    assert_eq!(&id[14..15], "4");
    assert!(sessions.session_exists(&id));
    assert_eq!(sessions.session_count(), 1);
    assert_eq!(*sessions.sender_for(&id).unwrap(), 7);
    assert!(routes_posted_message(&sessions, Some(&id)));
    assert!(!routes_posted_message(&sessions, Some("other")));
    assert!(!routes_posted_message(&sessions, None));
    let second = sessions.create_session(8);
    assert_ne!(id, second);
    assert_eq!(sessions.session_count(), 2);
    sessions.remove_session(&id);
    assert!(!sessions.session_exists(&id));
    assert_eq!(sessions.session_count(), 1);
    match sessions.sender_for(&id) {
        Err(e) => assert_eq!(e, format!("Session {} not found", id)),
        Ok(_) => panic!("removed session still found"),
    }
}

#[test]
fn sessions_insert_replaces() {
    let mut sessions: SessionManager<u32> = SessionManager::new();
    sessions.insert_session("a".to_string(), 1);
    sessions.insert_session("a".to_string(), 2);
    assert_eq!(sessions.session_count(), 1);
    assert_eq!(*sessions.sender_for("a").unwrap(), 2);
}

#[test]
fn websocket_queue_is_fifo() {
    let mut ws = WebSocketTransport::new("ws://localhost:9000");
    match ws.take_message() {
        Err(MCPError::Transport(m)) => assert_eq!(m, "WebSocket transport not connected"),
        _ => panic!("expected not connected"),
    }
    ws.mark_started();
    assert!(ws.on_frame(Frame::Text("first".to_string())));
    assert!(ws.on_frame(Frame::Binary(4)));
    assert!(ws.on_frame(Frame::Control));
    assert!(ws.on_frame(Frame::Text("second".to_string())));
    assert_eq!(ws.take_message().unwrap().as_deref(), Some("first"));
    assert_eq!(ws.take_message().unwrap().as_deref(), Some("second"));
    assert_eq!(ws.take_message().unwrap(), None);
    assert!(!ws.on_frame(Frame::Close));
    assert!(!ws.on_frame(Frame::End));
    assert!(!ws.on_frame(Frame::Error("reset".to_string())));
}

#[test]
fn websocket_modes_and_plans() {
    let client = WebSocketTransport::new("ws://localhost:9000/socket");
    assert!(!client.is_server());
    assert_eq!(client.uri(), "ws://localhost:9000/socket");
    match client.start_plan() {
        Ok(StartPlan::Connect(u)) => assert_eq!(u.serialization, "ws://localhost:9000/socket"),
        other => panic!("expected a connect plan, got {:?}", other),
    }
    match client.send_plan() {
        Err(MCPError::Transport(m)) => assert_eq!(m, "WebSocket transport not connected"),
        _ => panic!("expected not connected"),
    }
    let server = WebSocketTransport::new_server("127.0.0.1:9001");
    assert!(server.is_server());
    match server.start_plan() {
        Ok(StartPlan::Listen(a)) => assert_eq!(a, "127.0.0.1:9001"),
        other => panic!("expected a listen plan, got {:?}", other),
    }
    let mut bad = WebSocketTransport::new("no url");
    match bad.start_plan() {
        Err(MCPError::Transport(m)) => assert!(m.starts_with("Invalid WebSocket URL: ")),
        other => panic!("expected an invalid URL, got {:?}", other),
    }
    bad.mark_started();
    assert!(matches!(bad.start_plan(), Ok(StartPlan::AlreadyRunning)));
    assert!(bad.clone().is_connected());
    assert!(bad.mark_closed());
}

#[test]
fn websocket_clone_has_empty_queue() {
    let mut ws = WebSocketTransport::new("ws://localhost:9000");
    ws.mark_started();
    ws.on_frame(Frame::Text("kept".to_string()));
    let mut other = ws.clone();
    assert_eq!(other.take_message().unwrap(), None);
    assert_eq!(ws.take_message().unwrap().as_deref(), Some("kept"));
}

#[test]
fn stdio_transport_states() {
    let mut t = StdioTransport::new();
    match t.check_connected() {
        Err(MCPError::Transport(m)) => assert_eq!(m, "Transport not connected"),
        _ => panic!("expected not connected"),
    }
    t.start();
    assert!(t.is_connected());
    assert!(t.copy().is_connected());
    assert!(t.close());
    assert!(!t.close());
    assert!(!StdioTransport::default().is_connected());
    assert_eq!(frame_line("{\"a\":1}"), "{\"a\":1}\n");
}

#[test]
fn connection_named_error() {
    let mut c = Connection::new();
    match c.require_connected("WebSocket transport") {
        Err(MCPError::Transport(m)) => assert_eq!(m, "WebSocket transport not connected"),
        _ => panic!("expected not connected"),
    }
    c.mark_started();
    assert!(c.require_connected("x").is_ok());
}

fn parsed(serialization: &str, host: Option<&str>, port: Option<u16>) -> mcpr::transport::endpoint::ParsedUrl {
    mcpr::transport::endpoint::ParsedUrl {
        serialization: serialization.to_string(),
        host: host.map(|h| h.to_string()),
        port,
    }
}

#[test]
fn clients_from_parser_results() {
    let t = SSEClientTransport::from_parsed_url(Ok(parsed("http://h:1/e", Some("h"), Some(1)))).unwrap();
    assert_eq!(t.event_source_url(), "http://h:1/e");
    assert_eq!(t.get_max_reconnect_attempts(), 5);
    match SSEClientTransport::from_parsed_url(Err("empty host".to_string())) {
        Err(MCPError::Transport(m)) => assert_eq!(m, "Invalid event source URL: empty host"),
        _ => panic!("expected a transport error"),
    }
    let s = SSEServerTransport::from_parsed_url(Ok(parsed("http://h/", Some("h"), None))).unwrap();
    assert_eq!(s.bind_address(), "h:8000");
    let s = SSEServerTransport::from_parsed_url(Ok(parsed("file:///x", None, None))).unwrap();
    assert_eq!(s.bind_address(), "127.0.0.1:8000");
    match SSEServerTransport::from_parsed_url(Err("invalid port number".to_string())) {
        Err(MCPError::Transport(m)) => assert_eq!(m, "Invalid server URL: invalid port number"),
        _ => panic!("expected a transport error"),
    }
    match mcpr::transport::websocket::connect_target(Err("relative URL without a base".to_string())) {
        Err(MCPError::Transport(m)) => assert_eq!(m, "Invalid WebSocket URL: relative URL without a base"),
        _ => panic!("expected a transport error"),
    }
    let u = mcpr::transport::websocket::connect_target(Ok(parsed("ws://a/", Some("a"), None))).unwrap();
    assert_eq!(u.serialization, "ws://a/");
}

#[test]
fn endpoint_events_from_parser_results() {
    let mut t = SSEClientTransport::new("http://localhost:8000/events").unwrap();
    t.begin_start();
    assert!(matches!(t.on_endpoint(Ok(parsed("http://x/messages", Some("x"), None)), "ignored"), EventAction::EndpointSet));
    assert_eq!(t.send_target().unwrap(), "http://x/messages");
    match t.on_endpoint(Err("bad".to_string()), "::bad::") {
        EventAction::InvalidEndpoint(d) => assert_eq!(d, "::bad::"),
        other => panic!("unexpected {:?}", other),
    }
    assert_eq!(t.send_target().unwrap(), "http://x/messages");
}
