//! Method routing: from a decoded request to a response, an acknowledgment
//! or an error.

use vstd::prelude::*;
use vstd::string::StringExecFns;
use crate::json::{owned_view, Json, JsonView};
use crate::protocol::error::{error_object, error_payload, INVALID_PARAMS, METHOD_NOT_FOUND};
use crate::protocol::jsonrpc::{
    JsonRpcErrorResponse,
    JsonRpcErrorResponseView,
    JsonRpcResponse,
    JsonRpcResponseView,
};
use crate::protocol::mcp::{
    InitializeParams,
    InitializeParamsView,
    InitializeResult,
    InitializeResultView,
    ServerCapabilities,
    ServerInfo,
    ServerInfoView,
    ToolCallParams,
    ToolCallParamsView,
    ToolCallResult,
    ToolCallResultView,
    ToolView,
    ToolsCapability,
    ToolsListResult,
    ToolsListResultView,
    SERVER_NAME,
    SERVER_VERSION,
};
use crate::session::manager::SessionManager;
use crate::session::state::Session;
use crate::text::{owned, str_eq};
use crate::tools::registry::{ToolHandler, ToolRegistry};

verus! {

/// What a dispatch ends in.
#[derive(Debug)]
pub enum DispatchResult {
    /// A reply to send.
    Response(JsonRpcResponse),
    /// A notification was taken; there is nothing to send.
    Accepted,
    /// A protocol error to send.
    Error(JsonRpcErrorResponse),
}

/// The model of a [`DispatchResult`].
pub enum DispatchResultView {
    Response(JsonRpcResponseView),
    Accepted,
    Error(JsonRpcErrorResponseView),
}

impl View for DispatchResult {
    type V = DispatchResultView;

    open spec fn view(&self) -> DispatchResultView {
        match self {
            DispatchResult::Response(r) => DispatchResultView::Response(r@),
            DispatchResult::Accepted => DispatchResultView::Accepted,
            DispatchResult::Error(e) => DispatchResultView::Error(e@),
        }
    }
}

/// The methods that the dispatcher knows, and one for all the others.
#[derive(Clone, Copy, Debug, PartialEq, Eq, Structural)]
pub enum Method {
    Initialize,
    Initialized,
    Ping,
    ToolsList,
    ToolsCall,
    Unknown,
}

impl Method {
    /// The method that a name stands for.
    pub open spec fn named(name: Seq<char>) -> Method {
        if name == "initialize"@ {
            Method::Initialize
        } else if name == "notifications/initialized"@ {
            Method::Initialized
        } else if name == "ping"@ {
            Method::Ping
        } else if name == "tools/list"@ {
            Method::ToolsList
        } else if name == "tools/call"@ {
            Method::ToolsCall
        } else {
            Method::Unknown
        }
    }

    /// The method that a name stands for.
    pub fn of(name: &str) -> (method: Method)
        ensures
            method == Method::named(name@),
    {
        if str_eq(name, "initialize") {
            Method::Initialize
        } else if str_eq(name, "notifications/initialized") {
            Method::Initialized
        } else if str_eq(name, "ping") {
            Method::Ping
        } else if str_eq(name, "tools/list") {
            Method::ToolsList
        } else if str_eq(name, "tools/call") {
            Method::ToolsCall
        } else {
            Method::Unknown
        }
    }
}

/// The identifier that a reply carries: the request's own, or `null` where
/// the request had none.
pub open spec fn reply_id(id: Option<JsonView>) -> JsonView {
    match id {
        Some(i) => i,
        None => JsonView::Null,
    }
}

/// The error reply with a code and a message.
pub open spec fn failure(id: Option<JsonView>, code: i64, message: Seq<char>) -> DispatchResultView {
    DispatchResultView::Error(JsonRpcErrorResponseView::of(reply_id(id), error_payload(code, message)))
}

/// The reply that carries a result.
pub open spec fn success(id: Option<JsonView>, result: JsonView) -> DispatchResultView {
    DispatchResultView::Response(JsonRpcResponseView::of(reply_id(id), result))
}

/// What the server answers to a handshake that asks for `protocol_version`:
/// the same version, the capability of tools, and its own name and version.
pub open spec fn handshake(protocol_version: Seq<char>) -> InitializeResultView {
    InitializeResultView {
        protocol_version,
        capabilities: ServerCapabilities { tools: Some(ToolsCapability {  }) },
        server_info: ServerInfoView { name: SERVER_NAME@, version: SERVER_VERSION@ },
    }
}

/// The outcome of `initialize`.
pub open spec fn initialize_outcome(
    id: Option<JsonView>,
    params: Option<JsonView>,
) -> DispatchResultView {
    match params {
        None => failure(id, INVALID_PARAMS, "Missing params"@),
        Some(p) => match InitializeParamsView::decode(p) {
            None => failure(id, INVALID_PARAMS, "Invalid initialize params"@),
            Some(init) => success(id, handshake(init.protocol_version).wire()),
        },
    }
}

/// The outcome of `ping`: an empty object.
pub open spec fn ping_outcome(id: Option<JsonView>) -> DispatchResultView {
    success(id, JsonView::Object(Seq::empty()))
}

/// The outcome of `tools/list` for a listing.
pub open spec fn tools_list_outcome(
    id: Option<JsonView>,
    listing: Seq<ToolView>,
) -> DispatchResultView {
    success(id, ToolsListResultView { tools: listing }.wire())
}

/// The message that names a tool which the registry does not know.
pub open spec fn unknown_tool_message(name: Seq<char>) -> Seq<char> {
    "Tool '"@ + name + "' not found"@
}

/// The outcome of `tools/call` for a tool that the registry does not know.
pub open spec fn unknown_tool_outcome(id: Option<JsonView>, name: Seq<char>) -> DispatchResultView {
    failure(id, METHOD_NOT_FOUND, unknown_tool_message(name))
}

/// The outcome of `tools/call` once the tool has given `result`.
pub open spec fn tool_result_outcome(
    id: Option<JsonView>,
    result: ToolCallResultView,
) -> DispatchResultView {
    success(id, result.wire())
}

/// The outcome of a method that the dispatcher does not know.
pub open spec fn unknown_method_outcome(id: Option<JsonView>) -> DispatchResultView {
    failure(id, METHOD_NOT_FOUND, "Method not found"@)
}

/// What a dispatch asks of its caller.
#[derive(Debug)]
pub enum DispatchStep {
    /// The dispatch is over: this is what it ended in.
    Done(DispatchResult),
    /// The tool `name`, which the registry knows, is to be called with
    /// `arguments`. What it gives is wrapped for the call `id`.
    CallTool { id: Option<Json>, name: String, arguments: Option<Json> },
}

/// The model of a [`DispatchStep`].
pub enum DispatchStepView {
    Done(DispatchResultView),
    CallTool { id: Option<JsonView>, name: Seq<char>, arguments: Option<JsonView> },
}

impl View for DispatchStep {
    type V = DispatchStepView;

    open spec fn view(&self) -> DispatchStepView {
        match self {
            DispatchStep::Done(outcome) => DispatchStepView::Done(outcome@),
            DispatchStep::CallTool { id, name, arguments } => DispatchStepView::CallTool {
                id: owned_view(*id),
                name: name@,
                arguments: owned_view(*arguments),
            },
        }
    }
}

/// What `tools/call` comes to before any tool runs, on a registry that
/// knows the names `known`: an error for missing or malformed parameters and
/// for an unknown tool, the call of a known tool otherwise.
pub open spec fn tool_call_step(
    id: Option<JsonView>,
    params: Option<JsonView>,
    known: Set<Seq<char>>,
) -> DispatchStepView {
    match params {
        None => DispatchStepView::Done(failure(id, INVALID_PARAMS, "Missing params"@)),
        Some(p) => match ToolCallParamsView::decode(p) {
            None => DispatchStepView::Done(
                failure(id, INVALID_PARAMS, "Invalid tool call params"@),
            ),
            Some(call) => if known.contains(call.name) {
                DispatchStepView::CallTool { id, name: call.name, arguments: call.arguments }
            } else {
                DispatchStepView::Done(unknown_tool_outcome(id, call.name))
            },
        },
    }
}

/// Whether `outcome` is what a step ends in, on a registry that knows the
/// names `known`, with handlers that permit what `permits` says: the step's
/// own outcome where it is over; where a tool is called, what a permitted
/// result of the tool wraps to, or the error for an unknown tool.
pub open spec fn completes(
    step: DispatchStepView,
    known: Set<Seq<char>>,
    permits: spec_fn(Seq<char>, Option<JsonView>, ToolCallResultView) -> bool,
    outcome: DispatchResultView,
) -> bool {
    match step {
        DispatchStepView::Done(reached) => outcome == reached,
        DispatchStepView::CallTool { id, name, arguments } => if known.contains(name) {
            exists|result: ToolCallResultView| #[trigger]
                permits(name, arguments, result) && outcome == tool_result_outcome(id, result)
        } else {
            outcome == unknown_tool_outcome(id, name)
        },
    }
}

/// Whether `outcome` is an outcome of `tools/call` on a registry that knows
/// the names `known`, with handlers that permit what `permits` says.
pub open spec fn is_tool_call_outcome(
    id: Option<JsonView>,
    params: Option<JsonView>,
    known: Set<Seq<char>>,
    permits: spec_fn(Seq<char>, Option<JsonView>, ToolCallResultView) -> bool,
    outcome: DispatchResultView,
) -> bool {
    completes(tool_call_step(id, params, known), known, permits, outcome)
}

/// The message for an unknown tool holds the tool's name, whatever the
/// name: it stands right after the six characters that open the message.
pub proof fn lemma_unknown_tool_message_holds_name(name: Seq<char>)
    ensures
        unknown_tool_message(name).len() == 6 + name.len() + 11,
        unknown_tool_message(name).subrange(6, 6 + name.len() as int) == name,
{
    reveal_strlit("Tool '");
    reveal_strlit("' not found");
    assert(unknown_tool_message(name).subrange(6, 6 + name.len() as int) =~= name);
}

/// The store after the session under `id` has recorded activity: every
/// other session is as it was.
pub open spec fn touched_in(
    before: Map<Seq<char>, Session>,
    id: Seq<char>,
    after: Map<Seq<char>, Session>,
) -> bool {
    exists|elapsed: u128| after == before.insert(id, #[trigger] before[id].touched(elapsed))
}

/// The store after the session under `id` has been acknowledged and has
/// recorded activity: every other session is as it was.
pub open spec fn acknowledged_in(
    before: Map<Seq<char>, Session>,
    id: Seq<char>,
    after: Map<Seq<char>, Session>,
) -> bool {
    exists|elapsed: u128|
        after == before.insert(id, #[trigger] before[id].acknowledged().touched(elapsed))
}

/// What `notifications/initialized` does to the store: it acknowledges the
/// session that the identifier names, and changes nothing where there is no
/// identifier or no such session.
pub open spec fn initialized_effect(
    session_id: Option<Seq<char>>,
    before: Map<Seq<char>, Session>,
    after: Map<Seq<char>, Session>,
) -> bool {
    match session_id {
        Some(sid) => if before.contains_key(sid) {
            acknowledged_in(before, sid, after)
        } else {
            after == before
        },
        None => after == before,
    }
}

/// Once `notifications/initialized` has been taken for a live session, the
/// session is initialized and its activity is no earlier than before. It
/// keeps its identifier, its version and its creation time, and every other
/// session is as it was.
pub proof fn lemma_initialized_marks_session(
    sid: Seq<char>,
    before: Map<Seq<char>, Session>,
    after: Map<Seq<char>, Session>,
)
    requires
        before.contains_key(sid),
        initialized_effect(Some(sid), before, after),
    ensures
        after.contains_key(sid),
        after[sid].initialized,
        after[sid].last_active >= before[sid].last_active,
        after[sid].id == before[sid].id,
        after[sid].protocol_version == before[sid].protocol_version,
        after[sid].created_at == before[sid].created_at,
        after.dom() == before.dom(),
        forall|other: Seq<char>|
            other != sid && before.contains_key(other) ==> after[other] == before[other],
{
    let elapsed = choose|elapsed: u128|
        after == before.insert(sid, #[trigger] before[sid].acknowledged().touched(elapsed));
    assert(after.dom() =~= before.dom());
}

/// The characters of a string slice that may be absent.
pub open spec fn str_view(s: Option<&str>) -> Option<Seq<char>> {
    match s {
        Some(t) => Some(t@),
        None => None,
    }
}

/// The identifier for a reply.
fn take_id(id: Option<Json>) -> (req_id: Json)
    ensures
        req_id@ == reply_id(owned_view(id)),
{
    match id {
        Some(i) => i,
        None => Json::Null,
    }
}

/// The error reply with a code and a message.
fn fail(id: Option<Json>, code: i64, message: &str) -> (outcome: DispatchResult)
    ensures
        outcome@ == failure(owned_view(id), code, message@),
{
    DispatchResult::Error(JsonRpcErrorResponse::new(take_id(id), error_object(code, message)))
}

/// The reply that carries a result.
fn succeed(id: Option<Json>, result: Json) -> (outcome: DispatchResult)
    ensures
        outcome@ == success(owned_view(id), result@),
{
    DispatchResult::Response(JsonRpcResponse::new(take_id(id), result))
}

/// Answers `initialize`. It reads the parameters and answers with the
/// version that the client asked for; it opens no session.
pub fn handle_initialize(id: Option<Json>, params: Option<Json>) -> (outcome: DispatchResult)
    ensures
        outcome@ == initialize_outcome(owned_view(id), owned_view(params)),
{
    let init_params = match params {
        Some(p) => match InitializeParams::from_json(&p) {
            Some(v) => v,
            None => {
                return fail(id, INVALID_PARAMS, "Invalid initialize params");
            },
        },
        None => {
            return fail(id, INVALID_PARAMS, "Missing params");
        },
    };
    let result = InitializeResult {
        protocol_version: init_params.protocol_version,
        capabilities: ServerCapabilities { tools: Some(ToolsCapability {  }) },
        server_info: ServerInfo { name: owned(SERVER_NAME), version: owned(SERVER_VERSION) },
    };
    succeed(id, result.to_json())
}

/// Takes `notifications/initialized`: marks the session as initialized and
/// records activity on it. It never fails; without an identifier, or with
/// one that names no session, it does nothing.
pub fn handle_initialized(session_id: Option<&str>, sessions: &mut SessionManager) -> (outcome:
    DispatchResult)
    requires
        old(sessions).wf(),
    ensures
        final(sessions).wf(),
        outcome@ == DispatchResultView::Accepted,
        initialized_effect(str_view(session_id), old(sessions)@, final(sessions)@),
{
    if let Some(sid) = session_id {
        let acknowledge = |s: &mut Session| -> (done: ())
            ensures
                exists|elapsed: u128| *final(s) == #[trigger] old(s).acknowledged().touched(elapsed),
            {
                s.initialized = true;
                let ghost marked = *s;
                assert(marked == old(s).acknowledged());
                s.touch();
                proof {
                    let elapsed = choose|elapsed: u128| *s == marked.touched(elapsed);
                    assert(*s == old(s).acknowledged().touched(elapsed));
                }
            };
        let ran = sessions.with_mut(sid, acknowledge);
        proof {
            if ran is Some {
                let s = choose|s: &mut Session|
                    *s == old(sessions)@[sid@] && #[trigger] acknowledge.ensures((s,), ran->Some_0)
                        && sessions@ == old(sessions)@.insert(sid@, *final(s));
                let elapsed = choose|elapsed: u128|
                    *final(s) == #[trigger] (*s).acknowledged().touched(elapsed);
                assert(sessions@ == old(sessions)@.insert(
                    sid@,
                    old(sessions)@[sid@].acknowledged().touched(elapsed),
                ));
            }
        }
    }
    DispatchResult::Accepted
}

/// Answers `ping` with an empty object.
pub fn handle_ping(id: Option<Json>) -> (outcome: DispatchResult)
    ensures
        outcome@ == ping_outcome(owned_view(id)),
{
    succeed(id, Json::empty_object())
}

/// Answers `tools/list` with every descriptor in the registry.
pub fn handle_tools_list<H>(id: Option<Json>, tools: &ToolRegistry<H>) -> (outcome:
    DispatchResult)
    requires
        tools.wf(),
    ensures
        outcome@ == tools_list_outcome(owned_view(id), tools.listing()),
{
    let result = ToolsListResult { tools: tools.list() };
    succeed(id, result.to_json())
}

/// The answer to `tools/call` for a tool that the registry does not know.
pub fn unknown_tool(id: Option<Json>, name: &str) -> (outcome: DispatchResult)
    ensures
        outcome@ == unknown_tool_outcome(owned_view(id), name@),
{
    let mut message = String::from_str("Tool '");
    message.append(name);
    message.append("' not found");
    fail(id, METHOD_NOT_FOUND, message.as_str())
}

/// The answer to `tools/call` once the tool has given `result`.
pub fn tool_call_response(id: Option<Json>, result: &ToolCallResult) -> (outcome: DispatchResult)
    ensures
        outcome@ == tool_result_outcome(owned_view(id), result@),
{
    succeed(id, result.to_json())
}

/// The first part of `tools/call`: reads the parameters and looks the tool
/// up. It runs no handler.
pub fn plan_tools_call<H>(id: Option<Json>, params: Option<Json>, tools: &ToolRegistry<H>) -> (step:
    DispatchStep)
    requires
        tools.wf(),
    ensures
        step@ == tool_call_step(owned_view(id), owned_view(params), tools@.dom()),
{
    let call_params = match params {
        Some(p) => match ToolCallParams::from_json(&p) {
            Some(v) => v,
            None => {
                return DispatchStep::Done(fail(id, INVALID_PARAMS, "Invalid tool call params"));
            },
        },
        None => {
            return DispatchStep::Done(fail(id, INVALID_PARAMS, "Missing params"));
        },
    };
    if tools.contains(call_params.name.as_str()) {
        DispatchStep::CallTool { id, name: call_params.name, arguments: call_params.arguments }
    } else {
        DispatchStep::Done(unknown_tool(id, call_params.name.as_str()))
    }
}

/// Answers `tools/call`: reads the parameters, calls the tool that they
/// name, and wraps what it gives.
pub fn handle_tools_call<H: ToolHandler>(
    id: Option<Json>,
    params: Option<Json>,
    tools: &ToolRegistry<H>,
) -> (outcome: DispatchResult)
    requires
        tools.wf(),
    ensures
        is_tool_call_outcome(
            owned_view(id),
            owned_view(params),
            tools@.dom(),
            |name: Seq<char>, arguments: Option<JsonView>, result: ToolCallResultView|
                tools.permits(name, arguments, result),
            outcome@,
        ),
{
    complete(plan_tools_call(id, params, tools), tools)
}

/// Whether `outcome` and the store `after` are what a dispatch may leave.
pub open spec fn is_dispatch_outcome(
    method: Seq<char>,
    id: Option<JsonView>,
    params: Option<JsonView>,
    session_id: Option<Seq<char>>,
    before: Map<Seq<char>, Session>,
    known: Set<Seq<char>>,
    listing: Seq<ToolView>,
    permits: spec_fn(Seq<char>, Option<JsonView>, ToolCallResultView) -> bool,
    outcome: DispatchResultView,
    after: Map<Seq<char>, Session>,
) -> bool {
    match Method::named(method) {
        Method::Initialize => outcome == initialize_outcome(id, params) && after == before,
        Method::Initialized => outcome == DispatchResultView::Accepted && initialized_effect(
            session_id,
            before,
            after,
        ),
        Method::Ping => outcome == ping_outcome(id) && after == before,
        Method::ToolsList => outcome == tools_list_outcome(id, listing) && after == before,
        Method::ToolsCall => is_tool_call_outcome(id, params, known, permits, outcome) && after
            == before,
        Method::Unknown => outcome == unknown_method_outcome(id) && after == before,
    }
}

/// `ping` answers the same whenever it is asked: the answer is a function of
/// the request's identifier alone, and the store is left as it was.
pub proof fn lemma_ping_is_pure(
    id: Option<JsonView>,
    params: Option<JsonView>,
    session_id: Option<Seq<char>>,
    before: Map<Seq<char>, Session>,
    known: Set<Seq<char>>,
    listing: Seq<ToolView>,
    permits: spec_fn(Seq<char>, Option<JsonView>, ToolCallResultView) -> bool,
    outcome: DispatchResultView,
    after: Map<Seq<char>, Session>,
)
    requires
        is_dispatch_outcome(
            "ping"@,
            id,
            params,
            session_id,
            before,
            known,
            listing,
            permits,
            outcome,
            after,
        ),
    ensures
        outcome == ping_outcome(id),
        after == before,
{
    reveal_strlit("ping");
    reveal_strlit("initialize");
    reveal_strlit("notifications/initialized");
    assert("ping"@.len() == 4);
    assert("initialize"@.len() == 10);
    assert("notifications/initialized"@.len() == 25);
}

/// A call of a tool that the registry does not know ends in the error
/// `METHOD_NOT_FOUND`, with a message that holds the tool's name, whatever
/// the name and whatever the handlers.
pub proof fn lemma_unknown_tool_is_not_found(
    id: Option<JsonView>,
    params: JsonView,
    call: ToolCallParamsView,
    known: Set<Seq<char>>,
    permits: spec_fn(Seq<char>, Option<JsonView>, ToolCallResultView) -> bool,
    outcome: DispatchResultView,
)
    requires
        ToolCallParamsView::decode(params) == Some(call),
        !known.contains(call.name),
        is_tool_call_outcome(id, Some(params), known, permits, outcome),
    ensures
        outcome == failure(id, METHOD_NOT_FOUND, unknown_tool_message(call.name)),
        unknown_tool_message(call.name).subrange(6, 6 + call.name.len() as int) == call.name,
{
    lemma_unknown_tool_message_holds_name(call.name);
}

/// Whether a step and the store `after` are what the first part of a
/// dispatch may leave.
pub open spec fn is_dispatch_step(
    method: Seq<char>,
    id: Option<JsonView>,
    params: Option<JsonView>,
    session_id: Option<Seq<char>>,
    before: Map<Seq<char>, Session>,
    known: Set<Seq<char>>,
    listing: Seq<ToolView>,
    step: DispatchStepView,
    after: Map<Seq<char>, Session>,
) -> bool {
    match Method::named(method) {
        Method::Initialize => step == DispatchStepView::Done(initialize_outcome(id, params))
            && after == before,
        Method::Initialized => step == DispatchStepView::Done(DispatchResultView::Accepted)
            && initialized_effect(session_id, before, after),
        Method::Ping => step == DispatchStepView::Done(ping_outcome(id)) && after == before,
        Method::ToolsList => step == DispatchStepView::Done(tools_list_outcome(id, listing))
            && after == before,
        Method::ToolsCall => step == tool_call_step(id, params, known) && after == before,
        Method::Unknown => step == DispatchStepView::Done(unknown_method_outcome(id)) && after
            == before,
    }
}

/// A dispatch is its first part, completed: what [`dispatch`] may leave is
/// what [`dispatch_step`] may leave, with the step completed.
pub proof fn lemma_step_then_complete(
    method: Seq<char>,
    id: Option<JsonView>,
    params: Option<JsonView>,
    session_id: Option<Seq<char>>,
    before: Map<Seq<char>, Session>,
    known: Set<Seq<char>>,
    listing: Seq<ToolView>,
    permits: spec_fn(Seq<char>, Option<JsonView>, ToolCallResultView) -> bool,
    step: DispatchStepView,
    outcome: DispatchResultView,
    after: Map<Seq<char>, Session>,
)
    requires
        is_dispatch_step(method, id, params, session_id, before, known, listing, step, after),
        completes(step, known, permits, outcome),
    ensures
        is_dispatch_outcome(
            method,
            id,
            params,
            session_id,
            before,
            known,
            listing,
            permits,
            outcome,
            after,
        ),
{
}

/// The first part of a dispatch: everything but the run of a tool.
///
/// Only `notifications/initialized` touches the session store. For
/// `tools/call` of a known tool the step names the tool and hands back the
/// arguments; every other request is over with this step.
pub fn dispatch_step<H>(
    method: &str,
    id: Option<Json>,
    params: Option<Json>,
    session_id: Option<&str>,
    sessions: &mut SessionManager,
    tools: &ToolRegistry<H>,
) -> (step: DispatchStep)
    requires
        old(sessions).wf(),
        tools.wf(),
    ensures
        final(sessions).wf(),
        is_dispatch_step(
            method@,
            owned_view(id),
            owned_view(params),
            str_view(session_id),
            old(sessions)@,
            tools@.dom(),
            tools.listing(),
            step@,
            final(sessions)@,
        ),
{
    match Method::of(method) {
        Method::Initialize => DispatchStep::Done(handle_initialize(id, params)),
        Method::Initialized => DispatchStep::Done(handle_initialized(session_id, sessions)),
        Method::Ping => DispatchStep::Done(handle_ping(id)),
        Method::ToolsList => DispatchStep::Done(handle_tools_list(id, tools)),
        Method::ToolsCall => plan_tools_call(id, params, tools),
        Method::Unknown => DispatchStep::Done(fail(id, METHOD_NOT_FOUND, "Method not found")),
    }
}

/// Completes a step with a registry whose handlers run in place.
pub fn complete<H: ToolHandler>(step: DispatchStep, tools: &ToolRegistry<H>) -> (outcome:
    DispatchResult)
    requires
        tools.wf(),
    ensures
        completes(
            step@,
            tools@.dom(),
            |name: Seq<char>, arguments: Option<JsonView>, result: ToolCallResultView|
                tools.permits(name, arguments, result),
            outcome@,
        ),
{
    match step {
        DispatchStep::Done(outcome) => outcome,
        DispatchStep::CallTool { id, name, arguments } => {
            let ghost permits = |name: Seq<char>, arguments: Option<JsonView>, result: ToolCallResultView|
                tools.permits(name, arguments, result);
            let ghost handed = owned_view(arguments);
            match tools.call(name.as_str(), arguments) {
                Some(result) => {
                    let outcome = tool_call_response(id, &result);
                    assert(permits(name@, handed, result@));
                    outcome
                },
                None => unknown_tool(id, name.as_str()),
            }
        },
    }
}

/// Routes a request by its method name.
///
/// Only `notifications/initialized` touches the session store; only
/// `tools/call` runs a handler.
pub fn dispatch<H: ToolHandler>(
    method: &str,
    id: Option<Json>,
    params: Option<Json>,
    session_id: Option<&str>,
    sessions: &mut SessionManager,
    tools: &ToolRegistry<H>,
) -> (outcome: DispatchResult)
    requires
        old(sessions).wf(),
        tools.wf(),
    ensures
        final(sessions).wf(),
        is_dispatch_outcome(
            method@,
            owned_view(id),
            owned_view(params),
            str_view(session_id),
            old(sessions)@,
            tools@.dom(),
            tools.listing(),
            |name: Seq<char>, arguments: Option<JsonView>, result: ToolCallResultView|
                tools.permits(name, arguments, result),
            outcome@,
            final(sessions)@,
        ),
{
    let step = dispatch_step(method, id, params, session_id, sessions, tools);
    complete(step, tools)
}

} // verus!
