use apilab::gateway::router::{
    complete, dispatch, dispatch_step, handle_initialize, handle_initialized, handle_ping,
    handle_tools_call, handle_tools_list, plan_tools_call, tool_call_response, unknown_tool,
    DispatchResult, DispatchStep, Method,
};
use apilab::json::{put, Json, JsonNumber};
use apilab::protocol::jsonrpc::{JsonRpcErrorResponse, JsonRpcResponse};
use apilab::protocol::mcp::{Tool, ToolCallResult, ToolContent};
use apilab::session::manager::SessionManager;
use apilab::session::state::Session;
use apilab::tools::build_registry;
use apilab::tools::registry::{ToolHandler, ToolRegistry};

struct Failing;

impl ToolHandler for Failing {
    fn invoke(&self, _arguments: Option<Json>) -> ToolCallResult {
        ToolCallResult {
            content: vec![ToolContent::Text { text: "it broke".to_string() }],
            is_error: Some(true),
        }
    }
}

fn obj(entries: Vec<(&str, Json)>) -> Json {
    let mut out: Vec<(String, Json)> = Vec::new();
    for (k, v) in entries {
        put(&mut out, k, v);
    }
    Json::object(out)
}

fn response(result: DispatchResult) -> JsonRpcResponse {
    match result {
        DispatchResult::Response(r) => r,
        other => panic!("no response: {:?}", other),
    }
}

fn error(result: DispatchResult) -> JsonRpcErrorResponse {
    match result {
        DispatchResult::Error(e) => e,
        other => panic!("no error: {:?}", other),
    }
}

fn code(e: &JsonRpcErrorResponse) -> Json {
    e.error.get("code").unwrap().clone()
}

fn message(e: &JsonRpcErrorResponse) -> String {
    e.error.get("message").unwrap().as_str().unwrap().to_string()
}

#[test]
fn method_names_are_exact() {
    assert_eq!(Method::of("initialize"), Method::Initialize);
    assert_eq!(Method::of("notifications/initialized"), Method::Initialized);
    assert_eq!(Method::of("ping"), Method::Ping);
    assert_eq!(Method::of("tools/list"), Method::ToolsList);
    assert_eq!(Method::of("tools/call"), Method::ToolsCall);
    assert_eq!(Method::of("Ping"), Method::Unknown);
    assert_eq!(Method::of("ping "), Method::Unknown);
    assert_eq!(Method::of(""), Method::Unknown);
    assert_eq!(Method::of("tools/delete"), Method::Unknown);
}

#[test]
fn initialize_echoes_the_version() {
    let mut sessions = SessionManager::new();
    let tools = build_registry();
    let params = obj(vec![("protocolVersion", Json::text("2025-06-18"))]);
    let out = dispatch("initialize", Some(Json::integer(1)), Some(params), None, &mut sessions, &tools);
    let r = response(out);
    assert_eq!(r.jsonrpc, "2.0");
    assert_eq!(r.id, Json::Number(JsonNumber::PosInt(1)));
    assert_eq!(r.result.get("protocolVersion"), Some(&Json::text("2025-06-18")));
    assert_eq!(r.result.get("capabilities"), Some(&obj(vec![("tools", Json::empty_object())])));
    assert_eq!(
        r.result.get("serverInfo"),
        Some(&obj(vec![("name", Json::text("apilab")), ("version", Json::text("0.1.0"))]))
    );
}

#[test]
fn tools_call_ping_answers_pong() {
    let mut sessions = SessionManager::new();
    sessions.create(Session::new("s1".to_string(), "2025-06-18".to_string()));
    let tools = build_registry();
    let params = obj(vec![("name", Json::text("ping"))]);
    let out = dispatch(
        "tools/call",
        Some(Json::integer(2)),
        Some(params),
        Some("s1"),
        &mut sessions,
        &tools,
    );
    let r = response(out);
    assert_eq!(r.id, Json::integer(2));
    assert_eq!(
        r.result,
        obj(vec![(
            "content",
            Json::array(vec![obj(vec![("type", Json::text("text")), ("text", Json::text("pong"))])])
        )])
    );
    assert_eq!(r.result.get("isError"), None);
}

#[test]
fn unknown_tool_is_not_found() {
    let mut sessions = SessionManager::new();
    let tools = build_registry();
    let params = obj(vec![("name", Json::text("nonexistent"))]);
    let out = dispatch("tools/call", Some(Json::integer(3)), Some(params), None, &mut sessions, &tools);
    let e = error(out);
    assert_eq!(e.jsonrpc, "2.0");
    assert_eq!(e.id, Json::integer(3));
    assert_eq!(code(&e), Json::integer(-32601));
    assert!(message(&e).contains("nonexistent"));
    assert_eq!(message(&e), "Tool 'nonexistent' not found");
}

#[test]
fn unknown_tool_message_holds_any_name() {
    for name in ["", "a", "with space", "quote'inside", "日本語", "Tool '"] {
        let e = error(unknown_tool(None, name));
        assert_eq!(code(&e), Json::integer(-32601));
        assert_eq!(message(&e), format!("Tool '{}' not found", name));
        assert!(message(&e).contains(name));
        assert_eq!(e.id, Json::Null);
    }
}

#[test]
fn initialize_without_params_is_invalid() {
    let e = error(handle_initialize(Some(Json::integer(1)), None));
    assert_eq!(code(&e), Json::integer(-32602));
    assert_eq!(message(&e), "Missing params");
    assert_eq!(e.id, Json::integer(1));
}

#[test]
fn initialize_with_malformed_params_is_invalid() {
    let e = error(handle_initialize(Some(Json::text("x")), Some(Json::empty_object())));
    assert_eq!(code(&e), Json::integer(-32602));
    assert_eq!(message(&e), "Invalid initialize params");
    assert_eq!(e.id, Json::text("x"));
    let e = error(handle_initialize(None, Some(obj(vec![("protocolVersion", Json::integer(1))]))));
    assert_eq!(message(&e), "Invalid initialize params");
    assert_eq!(e.id, Json::Null);
}

#[test]
fn initialize_opens_no_session() {
    let mut sessions = SessionManager::new();
    let tools = build_registry();
    let params = obj(vec![("protocolVersion", Json::text("v"))]);
    let _ = dispatch("initialize", None, Some(params), Some("s1"), &mut sessions, &tools);
    assert!(!sessions.contains("s1"));
}

#[test]
fn initialized_marks_the_session() {
    let mut sessions = SessionManager::new();
    sessions.create(Session::new("s1".to_string(), "v".to_string()));
    sessions.create(Session::new("s2".to_string(), "v".to_string()));
    sessions.with_mut("s1", |s| s.touch_at(1000));
    let before = sessions.with("s1", |s| s.last_active).unwrap();
    let out = handle_initialized(Some("s1"), &mut sessions);
    assert!(matches!(out, DispatchResult::Accepted));
    assert_eq!(sessions.with("s1", |s| s.initialized), Some(true));
    assert!(sessions.with("s1", |s| s.last_active).unwrap() >= before);
    assert_eq!(sessions.with("s1", |s| s.id.clone()), Some("s1".to_string()));
    assert_eq!(sessions.with("s2", |s| s.initialized), Some(false));
    assert_eq!(sessions.with("s2", |s| s.last_active), Some(0));
}

#[test]
fn initialized_for_no_session_is_accepted_and_does_nothing() {
    let mut sessions = SessionManager::new();
    sessions.create(Session::new("s1".to_string(), "v".to_string()));
    assert!(matches!(handle_initialized(None, &mut sessions), DispatchResult::Accepted));
    assert!(matches!(handle_initialized(Some("other"), &mut sessions), DispatchResult::Accepted));
    assert_eq!(sessions.with("s1", |s| s.initialized), Some(false));
    assert!(!sessions.contains("other"));
}

#[test]
fn initialized_through_dispatch_ignores_id_and_params() {
    let mut sessions = SessionManager::new();
    sessions.create(Session::new("s1".to_string(), "v".to_string()));
    let tools = build_registry();
    let out = dispatch(
        "notifications/initialized",
        Some(Json::integer(9)),
        Some(Json::text("ignored")),
        Some("s1"),
        &mut sessions,
        &tools,
    );
    assert!(matches!(out, DispatchResult::Accepted));
    assert_eq!(sessions.with("s1", |s| s.initialized), Some(true));
}

#[test]
fn ping_answers_the_same_every_time() {
    let mut sessions = SessionManager::new();
    sessions.create(Session::new("s1".to_string(), "v".to_string()));
    let tools = build_registry();
    for _ in 0..3 {
        let out = dispatch(
            "ping",
            Some(Json::integer(4)),
            Some(Json::text("whatever")),
            Some("s1"),
            &mut sessions,
            &tools,
        );
        let r = response(out);
        assert_eq!(r.id, Json::integer(4));
        assert_eq!(r.result, Json::empty_object());
    }
    assert_eq!(sessions.with("s1", |s| (s.initialized, s.last_active)), Some((false, 0)));
    let r = response(handle_ping(None));
    assert_eq!(r.id, Json::Null);
    assert_eq!(r.result, Json::empty_object());
}

#[test]
fn tools_list_shows_the_registry() {
    let tools = build_registry();
    let r = response(handle_tools_list(Some(Json::integer(5)), &tools));
    assert_eq!(r.id, Json::integer(5));
    let listed = r.result.get("tools").unwrap();
    assert_eq!(listed.at(1), None);
    let ping = listed.at(0).unwrap();
    assert_eq!(ping.get("name"), Some(&Json::text("ping")));
    assert_eq!(ping.get("description"), Some(&Json::text("Returns pong")));
    assert_eq!(
        ping.get("inputSchema"),
        Some(&obj(vec![("type", Json::text("object")), ("properties", Json::empty_object())]))
    );
}

#[test]
fn tools_list_of_an_empty_registry_is_empty() {
    let tools: ToolRegistry<Failing> = ToolRegistry::new();
    let r = response(handle_tools_list(None, &tools));
    assert_eq!(r.result, obj(vec![("tools", Json::array(vec![]))]));
}

#[test]
fn tools_call_without_params_is_invalid() {
    let tools = build_registry();
    let e = error(handle_tools_call(Some(Json::integer(6)), None, &tools));
    assert_eq!(code(&e), Json::integer(-32602));
    assert_eq!(message(&e), "Missing params");
}

#[test]
fn tools_call_with_malformed_params_is_invalid() {
    let tools = build_registry();
    let e = error(handle_tools_call(None, Some(obj(vec![("tool", Json::text("ping"))])), &tools));
    assert_eq!(code(&e), Json::integer(-32602));
    assert_eq!(message(&e), "Invalid tool call params");
    let e = error(handle_tools_call(None, Some(Json::Null), &tools));
    assert_eq!(message(&e), "Invalid tool call params");
}

#[test]
fn tool_failure_is_a_response_with_the_error_flag() {
    let mut tools = ToolRegistry::new();
    tools.register(
        Tool { name: "bad".to_string(), description: "".to_string(), input_schema: Json::Null },
        Failing,
    );
    let r = response(handle_tools_call(
        Some(Json::integer(7)),
        Some(obj(vec![("name", Json::text("bad")), ("arguments", Json::empty_object())])),
        &tools,
    ));
    assert_eq!(r.result.get("isError"), Some(&Json::Bool(true)));
    assert_eq!(
        r.result.get("content").and_then(|c| c.at(0)).and_then(|i| i.get("text")),
        Some(&Json::text("it broke"))
    );
}

#[test]
fn tool_call_response_wraps_the_result() {
    let result = ToolCallResult { content: vec![], is_error: None };
    let r = response(tool_call_response(Some(Json::text("id")), &result));
    assert_eq!(r.id, Json::text("id"));
    assert_eq!(r.result, obj(vec![("content", Json::array(vec![]))]));
}

#[test]
fn unknown_method_is_not_found() {
    let mut sessions = SessionManager::new();
    let tools = build_registry();
    let e = error(dispatch("resources/list", Some(Json::integer(8)), None, None, &mut sessions, &tools));
    assert_eq!(code(&e), Json::integer(-32601));
    assert_eq!(message(&e), "Method not found");
    assert_eq!(e.id, Json::integer(8));
    let e = error(dispatch("", None, None, None, &mut sessions, &tools));
    assert_eq!(e.id, Json::Null);
    assert_eq!(message(&e), "Method not found");
}

#[test]
fn plan_names_a_known_tool_and_runs_nothing() {
    let mut tools = ToolRegistry::new();
    tools.register(
        Tool { name: "bad".to_string(), description: "".to_string(), input_schema: Json::Null },
        Failing,
    );
    let params = obj(vec![("name", Json::text("bad")), ("arguments", Json::text("a"))]);
    match plan_tools_call(Some(Json::integer(1)), Some(params), &tools) {
        DispatchStep::CallTool { id, name, arguments } => {
            assert_eq!(id, Some(Json::integer(1)));
            assert_eq!(name, "bad");
            assert_eq!(arguments, Some(Json::text("a")));
        },
        other => panic!("no call: {:?}", other),
    }
}

#[test]
fn plan_answers_for_an_unknown_tool() {
    let tools: ToolRegistry<Failing> = ToolRegistry::new();
    let params = obj(vec![("name", Json::text("bad"))]);
    match plan_tools_call(None, Some(params), &tools) {
        DispatchStep::Done(outcome) => {
            let e = error(outcome);
            assert_eq!(code(&e), Json::integer(-32601));
            assert_eq!(message(&e), "Tool 'bad' not found");
        },
        other => panic!("not done: {:?}", other),
    }
    match plan_tools_call(None, None, &tools) {
        DispatchStep::Done(outcome) => assert_eq!(message(&error(outcome)), "Missing params"),
        other => panic!("not done: {:?}", other),
    }
}

#[test]
fn complete_runs_the_named_tool() {
    let mut tools = ToolRegistry::new();
    tools.register(
        Tool { name: "bad".to_string(), description: "".to_string(), input_schema: Json::Null },
        Failing,
    );
    let step = DispatchStep::CallTool { id: Some(Json::integer(2)), name: "bad".to_string(), arguments: None };
    let r = response(complete(step, &tools));
    assert_eq!(r.id, Json::integer(2));
    assert_eq!(r.result.get("isError"), Some(&Json::Bool(true)));
    let step = DispatchStep::CallTool { id: None, name: "gone".to_string(), arguments: None };
    let e = error(complete(step, &tools));
    assert_eq!(message(&e), "Tool 'gone' not found");
    let done = DispatchStep::Done(DispatchResult::Accepted);
    assert!(matches!(complete(done, &tools), DispatchResult::Accepted));
}

#[test]
fn dispatch_step_is_over_for_everything_but_a_tool_call() {
    let mut sessions = SessionManager::new();
    let tools = build_registry();
    for method in ["initialize", "notifications/initialized", "ping", "tools/list", "other"] {
        let step = dispatch_step(method, None, None, None, &mut sessions, &tools);
        assert!(matches!(step, DispatchStep::Done(_)));
    }
    let params = obj(vec![("name", Json::text("ping"))]);
    let step = dispatch_step("tools/call", None, Some(params), None, &mut sessions, &tools);
    assert!(matches!(step, DispatchStep::CallTool { .. }));
}
