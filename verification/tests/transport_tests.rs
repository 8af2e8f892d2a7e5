use apilab::json::{put, Json};
use apilab::protocol::jsonrpc::{JsonRpcRequest, JsonRpcResponse};
use apilab::session::manager::SessionManager;
use apilab::session::state::Session;
use apilab::tools::build_registry;
use apilab::tools::ping::PingTool;
use apilab::transport::handler::{
    delete_mcp, get_mcp, open_session, post_mcp, post_step, reply_to, PostStep, Reply, ReplyBody,
    StreamReply, DEFAULT_PROTOCOL_VERSION, KEEP_ALIVE_SECS, STATUS_ACCEPTED, STATUS_BAD_REQUEST,
    STATUS_NOT_FOUND, STATUS_OK,
};
use apilab::gateway::router::{tool_call_response, DispatchResult};
use apilab::protocol::mcp::{Tool, ToolCallResult, ToolContent};
use apilab::tools::registry::ToolRegistry;
use apilab::AppState;
use std::sync::Arc;

fn obj(entries: Vec<(&str, Json)>) -> Json {
    let mut out: Vec<(String, Json)> = Vec::new();
    for (k, v) in entries {
        put(&mut out, k, v);
    }
    Json::object(out)
}

fn state() -> AppState<PingTool> {
    AppState { session_manager: SessionManager::new(), tool_registry: Arc::new(build_registry()) }
}

fn state_with(id: &str) -> AppState<PingTool> {
    let mut s = state();
    s.session_manager.create(Session::new(id.to_string(), "v".to_string()));
    s
}

fn request(version: &str, id: Option<Json>, method: &str, params: Option<Json>) -> JsonRpcRequest {
    JsonRpcRequest { jsonrpc: version.to_string(), id, method: method.to_string(), params }
}

fn error_of(reply: &Reply) -> (Json, String, Json) {
    match &reply.body {
        ReplyBody::Error(e) => (
            e.error.get("code").unwrap().clone(),
            e.error.get("message").unwrap().as_str().unwrap().to_string(),
            e.id.clone(),
        ),
        other => panic!("no error: {:?}", other),
    }
}

#[test]
fn statuses_are_the_http_ones() {
    assert_eq!(STATUS_OK, 200);
    assert_eq!(STATUS_ACCEPTED, 202);
    assert_eq!(STATUS_BAD_REQUEST, 400);
    assert_eq!(STATUS_NOT_FOUND, 404);
    assert_eq!(DEFAULT_PROTOCOL_VERSION, "2025-06-18");
    assert_eq!(KEEP_ALIVE_SECS, 15);
}

#[test]
fn wrong_version_is_rejected_before_any_session_check() {
    let mut s = state();
    let reply = post_mcp(&mut s, None, request("1.0", Some(Json::integer(1)), "tools/list", None));
    assert_eq!(reply.status, 400);
    assert_eq!(reply.session_id, None);
    let (code, message, id) = error_of(&reply);
    assert_eq!(code, Json::integer(-32600));
    assert_eq!(message, "Invalid JSON-RPC version");
    assert_eq!(id, Json::integer(1));
    let reply = post_mcp(&mut s, Some("unknown"), request("1.0", None, "ping", None));
    assert_eq!(reply.status, 400);
    assert_eq!(error_of(&reply).1, "Invalid JSON-RPC version");
    assert_eq!(error_of(&reply).2, Json::Null);
}

#[test]
fn wrong_version_on_initialize_opens_nothing() {
    let mut s = state_with("s1");
    let params = obj(vec![("protocolVersion", Json::text("v"))]);
    let reply = post_mcp(&mut s, Some("s1"), request("2", None, "initialize", Some(params)));
    assert_eq!(reply.status, 400);
    assert_eq!(reply.session_id, None);
    assert_eq!(s.session_manager.with("s1", |x| x.last_active), Some(0));
}

#[test]
fn every_other_method_needs_a_session_identifier() {
    for method in ["notifications/initialized", "ping", "tools/list", "tools/call", "nothing", ""] {
        let mut s = state_with("s1");
        let reply = post_mcp(&mut s, None, request("2.0", Some(Json::integer(2)), method, None));
        assert_eq!(reply.status, 400);
        let (code, message, id) = error_of(&reply);
        assert_eq!(code, Json::integer(-32600));
        assert_eq!(message, "Missing Mcp-Session-Id header");
        assert_eq!(id, Json::integer(2));
        assert_eq!(s.session_manager.with("s1", |x| (x.initialized, x.last_active)), Some((false, 0)));
    }
}

#[test]
fn unknown_session_is_not_found() {
    let mut s = state_with("s1");
    let reply = post_mcp(&mut s, Some("s2"), request("2.0", None, "ping", None));
    assert_eq!(reply.status, 404);
    let (code, message, id) = error_of(&reply);
    assert_eq!(code, Json::integer(-32600));
    assert_eq!(message, "Unknown session");
    assert_eq!(id, Json::Null);
    assert!(!s.session_manager.contains("s2"));
}

#[test]
fn initialize_opens_a_session() {
    let mut s = state();
    let params = obj(vec![("protocolVersion", Json::text("2025-06-18"))]);
    let reply = post_mcp(&mut s, None, request("2.0", Some(Json::integer(1)), "initialize", Some(params)));
    assert_eq!(reply.status, 200);
    let sid = reply.session_id.clone().unwrap();
    assert!(s.session_manager.contains(&sid));
    assert_eq!(
        s.session_manager.with(&sid, |x| (x.id.clone(), x.protocol_version.clone(), x.initialized)),
        Some((sid.clone(), "2025-06-18".to_string(), false))
    );
    match reply.body {
        ReplyBody::Response(r) => {
            assert_eq!(r.id, Json::integer(1));
            assert_eq!(r.result.get("protocolVersion"), Some(&Json::text("2025-06-18")));
            assert_eq!(r.result.get("capabilities"), Some(&obj(vec![("tools", Json::empty_object())])));
        },
        other => panic!("no response: {:?}", other),
    }
}

#[test]
fn issued_identifiers_have_the_hyphenated_form() {
    let mut s = state();
    let params = obj(vec![("protocolVersion", Json::text("v"))]);
    let reply = post_mcp(&mut s, None, request("2.0", None, "initialize", Some(params)));
    let sid = reply.session_id.unwrap();
    assert_eq!(sid.chars().count(), 36);
    for (i, c) in sid.chars().enumerate() {
        if i == 8 || i == 13 || i == 18 || i == 23 {
            assert_eq!(c, '-');
        } else {
            assert!(c.is_ascii_digit() || ('a'..='f').contains(&c));
        }
    }
}

#[test]
fn each_initialize_gets_its_own_identifier() {
    let mut s = state();
    let mut seen: Vec<String> = Vec::new();
    for _ in 0..20 {
        let params = obj(vec![("protocolVersion", Json::text("v"))]);
        let reply = post_mcp(&mut s, None, request("2.0", None, "initialize", Some(params)));
        let sid = reply.session_id.unwrap();
        assert!(!seen.contains(&sid));
        seen.push(sid);
    }
    for sid in &seen {
        assert!(s.session_manager.contains(sid));
    }
}

#[test]
fn initialize_ignores_the_session_identifier_it_came_with() {
    let mut s = state();
    let params = obj(vec![("protocolVersion", Json::text("v"))]);
    let reply = post_mcp(&mut s, Some("stale"), request("2.0", None, "initialize", Some(params)));
    assert_eq!(reply.status, 200);
    assert!(reply.session_id.is_some());
    assert!(!s.session_manager.contains("stale"));
}

#[test]
fn failed_initialize_opens_nothing() {
    let mut s = state();
    let reply = post_mcp(&mut s, None, request("2.0", Some(Json::integer(1)), "initialize", None));
    assert_eq!(reply.status, 200);
    assert_eq!(reply.session_id, None);
    let (code, message, _) = error_of(&reply);
    assert_eq!(code, Json::integer(-32602));
    assert_eq!(message, "Missing params");
}

#[test]
fn open_session_falls_back_to_the_default_version() {
    let mut s = state();
    let response = JsonRpcResponse::new(Json::integer(1), Json::empty_object());
    let reply = open_session(&mut s, response, "fixed".to_string());
    assert_eq!(reply.status, 200);
    assert_eq!(reply.session_id, Some("fixed".to_string()));
    assert_eq!(
        s.session_manager.with("fixed", |x| x.protocol_version.clone()),
        Some("2025-06-18".to_string())
    );
    let response = JsonRpcResponse::new(Json::Null, obj(vec![("protocolVersion", Json::integer(3))]));
    open_session(&mut s, response, "other".to_string());
    assert_eq!(
        s.session_manager.with("other", |x| x.protocol_version.clone()),
        Some("2025-06-18".to_string())
    );
    let response = JsonRpcResponse::new(Json::Null, obj(vec![("protocolVersion", Json::text("v9"))]));
    open_session(&mut s, response, "third".to_string());
    assert_eq!(
        s.session_manager.with("third", |x| (x.protocol_version.clone(), x.initialized, x.last_active)),
        Some(("v9".to_string(), false, 0))
    );
}

#[test]
fn a_live_session_reaches_the_dispatcher() {
    let mut s = state_with("s1");
    let params = obj(vec![("name", Json::text("ping"))]);
    let reply = post_mcp(&mut s, Some("s1"), request("2.0", Some(Json::integer(2)), "tools/call", Some(params)));
    assert_eq!(reply.status, 200);
    assert_eq!(reply.session_id, None);
    match reply.body {
        ReplyBody::Response(r) => {
            assert_eq!(r.id, Json::integer(2));
            assert_eq!(
                r.result.get("content").and_then(|c| c.at(0)).and_then(|i| i.get("text")),
                Some(&Json::text("pong"))
            );
            assert_eq!(r.result.get("isError"), None);
        },
        other => panic!("no response: {:?}", other),
    }
}

#[test]
fn a_protocol_error_goes_out_as_success() {
    let mut s = state_with("s1");
    let params = obj(vec![("name", Json::text("nonexistent"))]);
    let reply = post_mcp(&mut s, Some("s1"), request("2.0", Some(Json::integer(3)), "tools/call", Some(params)));
    assert_eq!(reply.status, 200);
    let (code, message, id) = error_of(&reply);
    assert_eq!(code, Json::integer(-32601));
    assert!(message.contains("nonexistent"));
    assert_eq!(id, Json::integer(3));
}

#[test]
fn a_notification_is_accepted_without_a_body() {
    let mut s = state_with("s1");
    let reply = post_mcp(&mut s, Some("s1"), request("2.0", None, "notifications/initialized", None));
    assert_eq!(reply.status, 202);
    assert_eq!(reply.session_id, None);
    assert!(matches!(reply.body, ReplyBody::Empty));
    assert_eq!(s.session_manager.with("s1", |x| x.initialized), Some(true));
}

#[test]
fn a_request_records_activity_on_its_session() {
    let mut s = state_with("s1");
    s.session_manager.create(Session::new("s2".to_string(), "v".to_string()));
    s.session_manager.with_mut("s1", |x| x.touch_at(5));
    let reply = post_mcp(&mut s, Some("s1"), request("2.0", Some(Json::integer(1)), "ping", None));
    assert_eq!(reply.status, 200);
    assert!(s.session_manager.with("s1", |x| x.last_active).unwrap() >= 5);
    assert_eq!(s.session_manager.with("s2", |x| x.last_active), Some(0));
}

#[test]
fn reply_to_maps_each_outcome() {
    let r = reply_to(DispatchResult::Accepted);
    assert_eq!(r.status, 202);
    assert!(matches!(r.body, ReplyBody::Empty));
    let r = reply_to(DispatchResult::Response(JsonRpcResponse::new(Json::Null, Json::Null)));
    assert_eq!(r.status, 200);
    assert!(matches!(r.body, ReplyBody::Response(_)));
    assert_eq!(r.session_id, None);
}

#[test]
fn stream_needs_a_live_session() {
    let s = state_with("s1");
    assert_eq!(get_mcp(&s, None), StreamReply::Refused(400));
    assert_eq!(get_mcp(&s, Some("nope")), StreamReply::Refused(404));
    assert_eq!(get_mcp(&s, Some("s1")), StreamReply::Open { keep_alive_secs: 15 });
}

#[test]
fn delete_ends_the_session_once() {
    let mut s = state_with("s1");
    assert_eq!(delete_mcp(&mut s, None), 400);
    assert!(s.session_manager.contains("s1"));
    assert_eq!(delete_mcp(&mut s, Some("s1")), 200);
    assert!(!s.session_manager.contains("s1"));
    assert_eq!(delete_mcp(&mut s, Some("s1")), 404);
    assert_eq!(delete_mcp(&mut s, Some("never")), 404);
}

#[test]
fn a_deleted_session_is_unknown_afterwards() {
    let mut s = state_with("s1");
    assert_eq!(delete_mcp(&mut s, Some("s1")), 200);
    let reply = post_mcp(&mut s, Some("s1"), request("2.0", None, "ping", None));
    assert_eq!(reply.status, 404);
}

#[test]
fn post_step_hands_a_known_tool_to_the_caller() {
    let mut registry: ToolRegistry<u8> = ToolRegistry::new();
    registry.register(
        Tool { name: "slow".to_string(), description: "".to_string(), input_schema: Json::Null },
        7,
    );
    let mut s = AppState { session_manager: SessionManager::new(), tool_registry: Arc::new(registry) };
    s.session_manager.create(Session::new("s1".to_string(), "v".to_string()));
    let params = obj(vec![("name", Json::text("slow")), ("arguments", Json::integer(4))]);
    let step = post_step(&mut s, Some("s1"), request("2.0", Some(Json::integer(1)), "tools/call", Some(params)));
    match step {
        PostStep::CallTool { id, name, arguments } => {
            assert_eq!(id, Some(Json::integer(1)));
            assert_eq!(name, "slow");
            assert_eq!(arguments, Some(Json::integer(4)));
            assert_eq!(s.tool_registry.handler(&name), Some(&7));
            let result = ToolCallResult {
                content: vec![ToolContent::Text { text: "done".to_string() }],
                is_error: None,
            };
            let reply = reply_to(tool_call_response(id, &result));
            assert_eq!(reply.status, 200);
            match reply.body {
                ReplyBody::Response(r) => assert_eq!(r.id, Json::integer(1)),
                other => panic!("no response: {:?}", other),
            }
        },
        other => panic!("no call: {:?}", other),
    }
}

#[test]
fn post_step_answers_what_needs_no_tool() {
    let registry: ToolRegistry<u8> = ToolRegistry::new();
    let mut s = AppState { session_manager: SessionManager::new(), tool_registry: Arc::new(registry) };
    s.session_manager.create(Session::new("s1".to_string(), "v".to_string()));
    let step = post_step(&mut s, Some("s1"), request("2.0", Some(Json::integer(1)), "ping", None));
    match step {
        PostStep::Reply(reply) => assert_eq!(reply.status, 200),
        other => panic!("no reply: {:?}", other),
    }
    let params = obj(vec![("name", Json::text("missing"))]);
    let step = post_step(&mut s, Some("s1"), request("2.0", None, "tools/call", Some(params)));
    match step {
        PostStep::Reply(reply) => {
            assert_eq!(reply.status, 200);
            assert_eq!(error_of(&reply).0, Json::integer(-32601));
            assert_eq!(error_of(&reply).1, "Tool 'missing' not found");
        },
        other => panic!("no reply: {:?}", other),
    }
    let step = post_step(&mut s, None, request("2.0", None, "tools/call", None));
    match step {
        PostStep::Reply(reply) => assert_eq!(reply.status, 400),
        other => panic!("no reply: {:?}", other),
    }
}

#[test]
fn stream_events_are_named_message() {
    let doc = JsonRpcResponse::new(Json::integer(1), Json::empty_object()).to_json();
    let event = apilab::transport::sse::json_rpc_event(doc.clone());
    assert_eq!(event.event, "message");
    assert_eq!(event.data, doc);
}
