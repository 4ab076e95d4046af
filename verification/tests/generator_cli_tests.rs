use mcpr::cli::{
    client_transport, echo_reply, echo_server_config, echo_tool, failure, listed_tools, server_uri, session_call,
    validation_unsupported, ClientTransportKind, SessionCall,
};
use mcpr::error::{GeneratorError, MCPError};
use mcpr::generator::{
    generate_client, generate_project, generate_server, is_valid_name, project_base_dirs, project_transport, render,
    Plan, ProjectTransport, Template,
};
use mcpr::json::JsonValue;
use mcpr::templates::{template_text, SERVER_MAIN_TEMPLATE};
use mcpr::text::replace_str;

fn obj(members: Vec<(&str, JsonValue)>) -> JsonValue {
    JsonValue::Object(members.into_iter().map(|(k, v)| (k.to_string(), v)).collect())
}

fn jstr(text: &str) -> JsonValue {
    JsonValue::String(text.to_string())
}

fn paths(plan: &Plan) -> Vec<String> {
    plan.files.iter().map(|f| f.path.join("/")).collect()
}

#[test]
fn valid_names() {
    assert!(is_valid_name("hello"));
    assert!(is_valid_name("my-server_2"));
    assert!(is_valid_name("A"));
    assert!(!is_valid_name(""));
    assert!(!is_valid_name("2fast"));
    assert!(!is_valid_name("_private"));
    assert!(!is_valid_name("has space"));
    assert!(!is_valid_name("dot.name"));
    assert!(!is_valid_name("café"));
}

#[test]
fn server_stub_plan() {
    let plan = generate_server("my_server").unwrap();
    let dirs: Vec<String> = plan.dirs.iter().map(|d| d.join("/")).collect();
    assert_eq!(dirs, vec!["my_server", "my_server/src"]);
    assert_eq!(paths(&plan), vec!["my_server/src/main.rs", "my_server/Cargo.toml", "my_server/README.md"]);
    assert_eq!(plan.files[0].template, Template::ServerMain);
    assert_eq!(plan.files[1].template, Template::ServerCargo);
    assert_eq!(plan.files[2].template, Template::ServerReadme);
    assert!(plan.files.iter().all(|f| !f.executable));
}

#[test]
fn client_stub_plan() {
    let plan = generate_client("cli").unwrap();
    assert_eq!(paths(&plan), vec!["cli/src/main.rs", "cli/Cargo.toml", "cli/README.md"]);
    assert_eq!(plan.files[0].template, Template::ClientMain);
    assert_eq!(plan.files[2].template, Template::ClientReadme);
}

#[test]
fn invalid_stub_names() {
    match generate_server("9lives") {
        Err(GeneratorError::InvalidName(m)) => assert_eq!(m, "Invalid server name: 9lives"),
        other => panic!("expected an invalid name, got {:?}", other.is_ok()),
    }
    match generate_client("bad name") {
        Err(e) => assert_eq!(e.to_string(), "Invalid name: Invalid client name: bad name"),
        Ok(_) => panic!("expected an invalid name"),
    }
}

#[test]
fn project_plans() {
    let dirs: Vec<String> = project_base_dirs("test_project").iter().map(|d| d.join("/")).collect();
    assert_eq!(dirs, vec!["test_project", "test_project/server", "test_project/client", "test_project/server/src"]);
    let plan = generate_project("test_project", "sse").unwrap();
    assert_eq!(
        paths(&plan),
        vec![
            "test_project/server/src/main.rs",
            "test_project/server/Cargo.toml",
            "test_project/client/src/main.rs",
            "test_project/client/Cargo.toml",
            "test_project/README.md",
            "test_project/test.sh",
            "test_project/test_server.sh",
            "test_project/test_client.sh",
            "test_project/run_tests.sh",
        ]
    );
    assert_eq!(plan.files[0].template, Template::ProjectServer(ProjectTransport::Sse));
    assert_eq!(plan.files[5].template, Template::ProjectTestScript(ProjectTransport::Sse));
    assert_eq!(plan.files[6].template, Template::ProjectServerTestScript(ProjectTransport::Sse));
    assert_eq!(plan.files[7].template, Template::ProjectClientTestScript(ProjectTransport::Sse));
    assert_eq!(plan.files[8].template, Template::ProjectRunTests(ProjectTransport::Sse));
    assert!(plan.files[5..].iter().all(|f| f.executable));
    assert!(plan.files[..5].iter().all(|f| !f.executable));
    let stdio = generate_project("p", "stdio").unwrap();
    assert_eq!(stdio.files[3].template, Template::ProjectClientCargo(ProjectTransport::Stdio));
    assert_eq!(project_transport("stdio").unwrap(), ProjectTransport::Stdio);
}

#[test]
fn project_unsupported_transport() {
    match generate_project("p", "websocket") {
        Err(GeneratorError::Template(m)) => assert_eq!(
            m,
            "Unsupported transport type: websocket. Supported types are 'stdio' and 'sse'. WebSocket transport is planned but not yet implemented."
        ),
        other => panic!("expected a template error, got {:?}", other.is_ok()),
    }
    assert_eq!(GeneratorError::Io("disk full".to_string()).to_string(), "IO error: disk full");
}

#[test]
fn render_replaces_every_placeholder() {
    assert_eq!(render("name = \"{{name}}\"\n# {{name}}", "demo"), "name = \"demo\"\n# demo");
    assert_eq!(render("no placeholder", "demo"), "no placeholder");
    assert_eq!(render("{{name}}{{name}}", "x"), "xx");
    assert_eq!(render("{{nam}}", "x"), "{{nam}}");
    assert_eq!(
        render("[package]\nname = \"{{name}}-server\"\n[dependencies]\nmcpr = \"{{version}}\"\n", "demo"),
        "[package]\nname = \"demo-server\"\n[dependencies]\nmcpr = \"0.2.3\"\n"
    );
    assert_eq!(render("{{version}}{{name}}", "{{version}}"), "0.2.3{{version}}");
}

#[test]
fn run_server_transports() {
    assert_eq!(server_uri(8080, "sse").unwrap(), "http://0.0.0.0:8080");
    assert_eq!(server_uri(0, "sse").unwrap(), "http://0.0.0.0:0");
    match server_uri(8080, "stdio") {
        Err(MCPError::UnsupportedFeature(m)) => assert_eq!(m, "Stdio server not yet implemented"),
        other => panic!("unexpected {:?}", other),
    }
    match server_uri(8080, "carrier-pigeon") {
        Err(MCPError::Transport(m)) => assert_eq!(m, "Unsupported transport type: carrier-pigeon"),
        other => panic!("unexpected {:?}", other),
    }
}

#[test]
fn echo_server_setup() {
    let config = echo_server_config();
    assert_eq!(config.name, "MCP SSE Server");
    assert_eq!(config.version, "1.0.0");
    assert_eq!(config.tools.len(), 1);
    let tool = echo_tool();
    assert_eq!(tool.name, "echo");
    assert_eq!(tool.description.as_deref(), Some("Echo tool"));
    assert_eq!(tool.input_schema.schema_type, "object");
    assert_eq!(tool.input_schema.required, Some(vec!["message".to_string()]));
}

#[test]
fn echo_tool_replies() {
    let ok = echo_reply(&obj(vec![("message", jstr("hi"))])).unwrap();
    assert_eq!(ok.get("result").and_then(|v| v.as_str()).map(|s| s.as_str()), Some("hi"));
    for bad in [obj(vec![]), obj(vec![("message", JsonValue::Null)]), JsonValue::Null] {
        match echo_reply(&bad) {
            Err(MCPError::Protocol(m)) => assert_eq!(m, "Missing message parameter"),
            other => panic!("unexpected {:?}", other),
        }
    }
}

#[test]
fn connect_transports_and_operations() {
    assert_eq!(client_transport("sse").unwrap(), ClientTransportKind::Sse);
    assert_eq!(client_transport("stdio").unwrap(), ClientTransportKind::Stdio);
    match client_transport("ws") {
        Err(MCPError::Transport(m)) => assert_eq!(m, "Unsupported transport type: ws"),
        other => panic!("unexpected {:?}", other),
    }
    assert!(matches!(session_call(None), Ok(SessionCall::Hello)));
    match session_call(Some("interactive")) {
        Err(MCPError::UnsupportedFeature(m)) => assert_eq!(m, "Interactive session not implemented yet"),
        other => panic!("unexpected {:?}", other),
    }
    match session_call(Some("repl")) {
        Err(MCPError::UnsupportedFeature(m)) => assert_eq!(m, "REPL not implemented yet"),
        other => panic!("unexpected {:?}", other),
    }
    match session_call(Some("weather")) {
        Ok(SessionCall::Tool(t)) => assert_eq!(t, "weather"),
        other => panic!("unexpected {:?}", other),
    }
}

#[test]
fn tool_listing() {
    let listing = JsonValue::Array(vec![
        obj(vec![("name", jstr("echo")), ("description", jstr("Echo tool"))]),
        obj(vec![("name", jstr("nodesc"))]),
        obj(vec![("description", jstr("no name")), ("name", jstr("second"))]),
    ]);
    let tools = listed_tools(&listing).unwrap();
    assert_eq!(
        tools,
        vec![("echo".to_string(), "Echo tool".to_string()), ("second".to_string(), "no name".to_string())]
    );
    assert!(listed_tools(&obj(vec![])).is_none());
    assert_eq!(listed_tools(&JsonValue::Array(vec![])).unwrap(), vec![]);
}

#[test]
fn command_errors() {
    match validation_unsupported() {
        MCPError::UnsupportedFeature(m) => assert_eq!(m, "Message validation not yet implemented"),
        other => panic!("unexpected {:?}", other),
    }
    match failure("generate server", "Invalid name: x") {
        MCPError::Transport(m) => assert_eq!(m, "Failed to generate server: Invalid name: x"),
        other => panic!("unexpected {:?}", other),
    }
}

#[test]
fn replace_with_empty_pattern() {
    assert_eq!(replace_str("ab", "", "x"), "xaxbx");
    assert_eq!(replace_str("", "", "x"), "x");
    assert_eq!(replace_str("ab", "", "x"), "ab".replace("", "x"));
}

/// The content of the plan's file at `path`.
fn content<'a>(plan: &'a Plan, path: &str) -> &'a str {
    plan.files.iter().find(|f| f.path.join("/") == path).map(|f| f.content.as_str()).unwrap()
}

#[test]
fn test_project_generation_with_local_dependency() {
    let plan = generate_project("test_project", "sse").unwrap();
    for part in ["server", "client"] {
        let cargo = content(&plan, &format!("test_project/{}/Cargo.toml", part));
        assert!(cargo.contains("# mcpr = { path = \"../..\" }"));
        assert!(cargo.contains("mcpr = \"0.2.3\""));
        assert!(cargo.contains(&format!("name = \"test_project-{}\"", part)));
    }
    assert!(content(&plan, "test_project/client/src/main.rs").contains("test_project"));
    assert!(content(&plan, "test_project/server/src/main.rs").contains("test_project"));
}

#[test]
fn project_templates_hold_local_path_line() {
    for transport in ["stdio", "sse"] {
        let name = format!("test_project_{}", transport);
        let plan = generate_project(&name, transport).unwrap();
        for part in ["server", "client"] {
            let cargo = content(&plan, &format!("{}/{}/Cargo.toml", name, part));
            assert!(cargo.contains("# mcpr = { path = \"../..\" }"));
            assert!(cargo.contains("mcpr = \"0.2.3\""));
        }
    }
}

#[test]
fn made_files_hold_no_placeholder() {
    for transport in ["stdio", "sse"] {
        let plan = generate_project("demo", transport).unwrap();
        for f in &plan.files {
            assert!(!f.content.contains("{{name}}"), "{:?}", f.path);
            assert!(!f.content.contains("{{version}}"), "{:?}", f.path);
            assert_eq!(f.content, render(template_text(f.template), "demo"));
        }
    }
    for plan in [generate_server("demo").unwrap(), generate_client("demo").unwrap()] {
        for f in &plan.files {
            assert!(!f.content.contains("{{name}}"), "{:?}", f.path);
            assert!(!f.content.contains("{{version}}"), "{:?}", f.path);
        }
    }
}

#[test]
fn stub_files_are_filled_templates() {
    let plan = generate_server("my_server").unwrap();
    assert_eq!(plan.files[0].content, render(SERVER_MAIN_TEMPLATE, "my_server"));
    assert_eq!(template_text(Template::ServerMain), SERVER_MAIN_TEMPLATE);
    assert!(plan.files[1].content.contains("name = \"my_server\""));
    assert!(plan.files[2].content.starts_with("# my_server"));
}
