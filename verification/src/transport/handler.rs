//! The decisions of the HTTP binding, on plain values: which requests reach
//! the dispatcher, when a session opens, and which status a reply goes out
//! with.

use vstd::prelude::*;
use crate::gateway::router::{
    complete,
    completes,
    dispatch_step,
    initialize_outcome,
    is_dispatch_step,
    reply_id,
    str_view,
    touched_in,
    DispatchResult,
    DispatchResultView,
    DispatchStep,
    DispatchStepView,
    Method,
};
use crate::json::{owned_view, Json, JsonView};
use crate::protocol::error::{error_object, error_payload, INVALID_REQUEST};
use crate::protocol::jsonrpc::{
    JsonRpcErrorResponse,
    JsonRpcErrorResponseView,
    JsonRpcRequest,
    JsonRpcRequestView,
    JsonRpcResponse,
    JsonRpcResponseView,
    JSONRPC_VERSION,
};
use crate::protocol::mcp::{ToolCallResultView, ToolView};
use crate::session::state::Session;
use crate::text::{owned, str_eq};
use crate::tools::registry::ToolHandler;
use crate::AppState;

verus! {

/// The status of a reply that carries an envelope.
pub const STATUS_OK: u16 = 200;

/// The status of the reply to a notification.
pub const STATUS_ACCEPTED: u16 = 202;

/// The status of the reply to a request that cannot be taken as it is.
pub const STATUS_BAD_REQUEST: u16 = 400;

/// The status of the reply to a request for a session that is not there.
pub const STATUS_NOT_FOUND: u16 = 404;

/// The protocol version of a session whose handshake names none.
pub const DEFAULT_PROTOCOL_VERSION: &'static str = "2025-06-18";

/// The seconds between two heartbeats on the event stream.
pub const KEEP_ALIVE_SECS: u64 = 15;

/// What a reply carries.
#[derive(Debug)]
pub enum ReplyBody {
    Empty,
    Response(JsonRpcResponse),
    Error(JsonRpcErrorResponse),
}

/// A reply to a posted request: the status, the session identifier to hand
/// to the client where a session was opened, and the body.
#[derive(Debug)]
pub struct Reply {
    pub status: u16,
    pub session_id: Option<String>,
    pub body: ReplyBody,
}

/// The model of a [`ReplyBody`].
pub enum ReplyBodyView {
    Empty,
    Response(JsonRpcResponseView),
    Error(JsonRpcErrorResponseView),
}

/// The model of a [`Reply`].
pub struct ReplyView {
    pub status: u16,
    pub session_id: Option<Seq<char>>,
    pub body: ReplyBodyView,
}

impl View for ReplyBody {
    type V = ReplyBodyView;

    open spec fn view(&self) -> ReplyBodyView {
        match self {
            ReplyBody::Empty => ReplyBodyView::Empty,
            ReplyBody::Response(r) => ReplyBodyView::Response(r@),
            ReplyBody::Error(e) => ReplyBodyView::Error(e@),
        }
    }
}

impl View for Reply {
    type V = ReplyView;

    open spec fn view(&self) -> ReplyView {
        ReplyView {
            status: self.status,
            session_id: match self.session_id {
                Some(s) => Some(s@),
                None => None,
            },
            body: self.body@,
        }
    }
}

/// The answer to a request for the event stream.
#[derive(Clone, Copy, Debug, PartialEq, Eq, Structural)]
pub enum StreamReply {
    /// No stream: the status says why.
    Refused(u16),
    /// A stream that carries a heartbeat at this interval and, so far,
    /// nothing else.
    Open { keep_alive_secs: u64 },
}

/// What a posted request asks of its caller.
#[derive(Debug)]
pub enum PostStep {
    /// The request is over: this is the reply.
    Reply(Reply),
    /// The tool `name`, which the registry knows, is to be called with
    /// `arguments`. What it gives is wrapped for the call `id`.
    CallTool { id: Option<Json>, name: String, arguments: Option<Json> },
}

/// The model of a [`PostStep`].
pub enum PostStepView {
    Reply(ReplyView),
    CallTool { id: Option<JsonView>, name: Seq<char>, arguments: Option<JsonView> },
}

impl View for PostStep {
    type V = PostStepView;

    open spec fn view(&self) -> PostStepView {
        match self {
            PostStep::Reply(reply) => PostStepView::Reply(reply@),
            PostStep::CallTool { id, name, arguments } => PostStepView::CallTool {
                id: owned_view(*id),
                name: name@,
                arguments: owned_view(*arguments),
            },
        }
    }
}

/// The reply that turns a request away before it is dispatched.
pub open spec fn rejection(status: u16, id: Option<JsonView>, message: Seq<char>) -> ReplyView {
    ReplyView {
        status,
        session_id: None,
        body: ReplyBodyView::Error(
            JsonRpcErrorResponseView::of(reply_id(id), error_payload(INVALID_REQUEST, message)),
        ),
    }
}

/// The reply that carries what a dispatch ended in, where no session opens:
/// an acknowledgment goes out without a body, a response and a protocol
/// error go out as success.
pub open spec fn plain_reply(outcome: DispatchResultView) -> ReplyView {
    match outcome {
        DispatchResultView::Response(r) => ReplyView {
            status: STATUS_OK,
            session_id: None,
            body: ReplyBodyView::Response(r),
        },
        DispatchResultView::Accepted => ReplyView {
            status: STATUS_ACCEPTED,
            session_id: None,
            body: ReplyBodyView::Empty,
        },
        DispatchResultView::Error(e) => ReplyView {
            status: STATUS_OK,
            session_id: None,
            body: ReplyBodyView::Error(e),
        },
    }
}

/// The protocol version that a handshake result settles: its member
/// `protocolVersion` where that is a string, the default otherwise.
pub open spec fn negotiated(result: JsonView) -> Seq<char> {
    match result.field("protocolVersion"@) {
        Some(JsonView::Text(version)) => version,
        _ => DEFAULT_PROTOCOL_VERSION@,
    }
}

/// Whether `session` is a session just opened under `id` with the version
/// `protocol_version`.
pub open spec fn is_fresh(session: Session, id: Seq<char>, protocol_version: Seq<char>) -> bool {
    &&& session.id@ == id
    &&& session.protocol_version@ == protocol_version
    &&& !session.initialized
    &&& session.last_active == 0
}

/// Whether a store and a reply are what opening a session under `sid`
/// leaves, after the handshake that `response` answers.
pub open spec fn is_opening(
    response: JsonRpcResponseView,
    sid: Seq<char>,
    before: Map<Seq<char>, Session>,
    reply: ReplyView,
    after: Map<Seq<char>, Session>,
) -> bool {
    &&& reply == ReplyView {
        status: STATUS_OK,
        session_id: Some(sid),
        body: ReplyBodyView::Response(response),
    }
    &&& exists|session: Session| #[trigger]
        is_fresh(session, sid, negotiated(response.result)) && after == before.insert(
            sid,
            session,
        )
}

/// The form in which session identifiers are issued: 36 characters, four
/// of them hyphens, the others digits or the letters `a` to `f`.
pub open spec fn is_issued_form(id: Seq<char>) -> bool {
    &&& id.len() == 36
    &&& forall|i: int|
        0 <= i < 36 ==> if i == 8 || i == 13 || i == 18 || i == 23 {
            #[trigger] id[i] == '-'
        } else {
            ('0' <= id[i] <= '9') || ('a' <= id[i] <= 'f')
        }
}

/// The step of a posted request that a dispatch step comes to, where no
/// session opens: a finished dispatch goes out as its plain reply, the call
/// of a tool is handed on.
pub open spec fn settled(step: DispatchStepView) -> PostStepView {
    match step {
        DispatchStepView::Done(outcome) => PostStepView::Reply(plain_reply(outcome)),
        DispatchStepView::CallTool { id, name, arguments } => PostStepView::CallTool {
            id,
            name,
            arguments,
        },
    }
}

/// Whether a step and a store are what the first part of a posted request
/// may leave.
pub open spec fn is_post_step(
    req: JsonRpcRequestView,
    session_id: Option<Seq<char>>,
    before: Map<Seq<char>, Session>,
    known: Set<Seq<char>>,
    listing: Seq<ToolView>,
    step: PostStepView,
    after: Map<Seq<char>, Session>,
) -> bool {
    if req.jsonrpc != JSONRPC_VERSION@ {
        step == PostStepView::Reply(
            rejection(STATUS_BAD_REQUEST, req.id, "Invalid JSON-RPC version"@),
        ) && after == before
    } else if Method::named(req.method) == Method::Initialize {
        match initialize_outcome(req.id, req.params) {
            DispatchResultView::Response(response) => exists|sid: Seq<char>, reply: ReplyView|
                is_issued_form(sid) && #[trigger] is_opening(response, sid, before, reply, after)
                    && step == PostStepView::Reply(reply),
            refusal => step == PostStepView::Reply(plain_reply(refusal)) && after == before,
        }
    } else {
        match session_id {
            None => step == PostStepView::Reply(
                rejection(STATUS_BAD_REQUEST, req.id, "Missing Mcp-Session-Id header"@),
            ) && after == before,
            Some(sid) => if !before.contains_key(sid) {
                step == PostStepView::Reply(
                    rejection(STATUS_NOT_FOUND, req.id, "Unknown session"@),
                ) && after == before
            } else {
                exists|touched: Map<Seq<char>, Session>, reached: DispatchStepView|
                    touched_in(before, sid, touched) && #[trigger] is_dispatch_step(
                        req.method,
                        req.id,
                        req.params,
                        session_id,
                        touched,
                        known,
                        listing,
                        reached,
                        after,
                    ) && step == settled(reached)
            },
        }
    }
}

/// Whether `reply` is what a step ends in, on a registry that knows the
/// names `known`, with handlers that permit what `permits` says.
pub open spec fn post_completes(
    step: PostStepView,
    known: Set<Seq<char>>,
    permits: spec_fn(Seq<char>, Option<JsonView>, ToolCallResultView) -> bool,
    reply: ReplyView,
) -> bool {
    match step {
        PostStepView::Reply(reached) => reply == reached,
        PostStepView::CallTool { id, name, arguments } => exists|outcome: DispatchResultView| #[trigger]
            completes(
                DispatchStepView::CallTool { id, name, arguments },
                known,
                permits,
                outcome,
            ) && reply == plain_reply(outcome),
    }
}

/// Whether a reply and a store are what a posted request may leave: the
/// first part's step, completed.
pub open spec fn is_post_outcome(
    req: JsonRpcRequestView,
    session_id: Option<Seq<char>>,
    before: Map<Seq<char>, Session>,
    known: Set<Seq<char>>,
    listing: Seq<ToolView>,
    permits: spec_fn(Seq<char>, Option<JsonView>, ToolCallResultView) -> bool,
    reply: ReplyView,
    after: Map<Seq<char>, Session>,
) -> bool {
    exists|step: PostStepView| #[trigger]
        is_post_step(req, session_id, before, known, listing, step, after) && post_completes(
            step,
            known,
            permits,
            reply,
        )
}

/// A request with another version tag than `2.0` is turned away whatever
/// else it holds, session identifier or not, and the store is left as it
/// was.
pub proof fn lemma_bad_version_is_rejected(
    req: JsonRpcRequestView,
    session_id: Option<Seq<char>>,
    before: Map<Seq<char>, Session>,
    known: Set<Seq<char>>,
    listing: Seq<ToolView>,
    permits: spec_fn(Seq<char>, Option<JsonView>, ToolCallResultView) -> bool,
    reply: ReplyView,
    after: Map<Seq<char>, Session>,
)
    requires
        req.jsonrpc != JSONRPC_VERSION@,
        is_post_outcome(req, session_id, before, known, listing, permits, reply, after),
    ensures
        reply == rejection(STATUS_BAD_REQUEST, req.id, "Invalid JSON-RPC version"@),
        after == before,
{
    let step = choose|step: PostStepView| #[trigger]
        is_post_step(req, session_id, before, known, listing, step, after) && post_completes(
            step,
            known,
            permits,
            reply,
        );
}

/// A request for any method but `initialize` that comes without a session
/// identifier is turned away before it is dispatched: the reply is the
/// rejection, and the store is left as it was.
pub proof fn lemma_missing_session_is_rejected(
    req: JsonRpcRequestView,
    before: Map<Seq<char>, Session>,
    known: Set<Seq<char>>,
    listing: Seq<ToolView>,
    permits: spec_fn(Seq<char>, Option<JsonView>, ToolCallResultView) -> bool,
    reply: ReplyView,
    after: Map<Seq<char>, Session>,
)
    requires
        req.jsonrpc == JSONRPC_VERSION@,
        req.method != "initialize"@,
        is_post_outcome(req, None, before, known, listing, permits, reply, after),
    ensures
        reply == rejection(STATUS_BAD_REQUEST, req.id, "Missing Mcp-Session-Id header"@),
        after == before,
{
    let step = choose|step: PostStepView| #[trigger]
        is_post_step(req, None, before, known, listing, step, after) && post_completes(
            step,
            known,
            permits,
            reply,
        );
}

/// Opening a session hands the client the identifier under which the
/// session is stored. The store holds that session, not yet initialized,
/// and every other session is as it was.
pub proof fn lemma_opening_adds_one_session(
    response: JsonRpcResponseView,
    sid: Seq<char>,
    before: Map<Seq<char>, Session>,
    reply: ReplyView,
    after: Map<Seq<char>, Session>,
)
    requires
        is_opening(response, sid, before, reply, after),
    ensures
        reply.session_id == Some(sid),
        after.contains_key(sid),
        after[sid].id@ == sid,
        !after[sid].initialized,
        after.dom() == before.dom().insert(sid),
        forall|other: Seq<char>|
            other != sid && before.contains_key(other) ==> after[other] == before[other],
{
    let session = choose|session: Session| #[trigger]
        is_fresh(session, sid, negotiated(response.result)) && after == before.insert(
            sid,
            session,
        );
    assert(after.dom() =~= before.dom().insert(sid));
}

/// `Uuid::new_v4` draws a random version-4 UUID from the operating
/// system's generator, and `to_string` writes it in its hyphenated
/// lower-case form. The contract claims that form and nothing of the value:
/// two calls may give any two identifiers. The draw fails only where the
/// operating system has no random bytes to give.
#[verifier::external_body]
fn fresh_session_id() -> (id: String)
    ensures
        is_issued_form(id@),
{
    uuid::Uuid::new_v4().to_string()
}

/// The reply that turns a request away before it is dispatched.
fn reject(status: u16, id: &Option<Json>, message: &str) -> (reply: Reply)
    ensures
        reply@ == rejection(status, owned_view(*id), message@),
{
    let req_id = match id {
        Some(i) => i.clone(),
        None => Json::Null,
    };
    Reply {
        status,
        session_id: None,
        body: ReplyBody::Error(
            JsonRpcErrorResponse::new(req_id, error_object(INVALID_REQUEST, message)),
        ),
    }
}

/// The reply that carries what a dispatch ended in, where no session opens.
pub fn reply_to(outcome: DispatchResult) -> (reply: Reply)
    ensures
        reply@ == plain_reply(outcome@),
{
    match outcome {
        DispatchResult::Response(r) => Reply {
            status: STATUS_OK,
            session_id: None,
            body: ReplyBody::Response(r),
        },
        DispatchResult::Accepted => Reply {
            status: STATUS_ACCEPTED,
            session_id: None,
            body: ReplyBody::Empty,
        },
        DispatchResult::Error(e) => Reply {
            status: STATUS_OK,
            session_id: None,
            body: ReplyBody::Error(e),
        },
    }
}

/// Opens a session under `sid` after a handshake, with the protocol version
/// that the handshake settled, and hands the identifier to the client with
/// the handshake's response. A session that was there under `sid` is
/// replaced.
pub fn open_session<H>(
    state: &mut AppState<H>,
    response: JsonRpcResponse,
    sid: String,
) -> (reply: Reply)
    requires
        old(state).wf(),
    ensures
        final(state).wf(),
        final(state).tool_registry == old(state).tool_registry,
        is_opening(
            response@,
            sid@,
            old(state).session_manager@,
            reply@,
            final(state).session_manager@,
        ),
{
    let protocol_version = match response.result.get("protocolVersion") {
        Some(v) => match v.as_str() {
            Some(s) => owned(s),
            None => owned(DEFAULT_PROTOCOL_VERSION),
        },
        None => owned(DEFAULT_PROTOCOL_VERSION),
    };
    let session = Session::new(sid.clone(), protocol_version);
    let ghost opened = session;
    state.session_manager.create(session);
    proof {
        assert(is_fresh(opened, sid@, negotiated(response@.result)));
    }
    Reply { status: STATUS_OK, session_id: Some(sid), body: ReplyBody::Response(response) }
}

/// The first part of a posted request: everything but the run of a tool.
///
/// A request whose version tag is not `2.0` is turned away first. Every
/// method but `initialize` needs the identifier of a live session, on which
/// activity is then recorded. What passes is dispatched as far as it goes
/// without running a tool. A successful `initialize` opens a session under
/// a fresh identifier.
pub fn post_step<H>(state: &mut AppState<H>, session_id: Option<&str>, req: JsonRpcRequest) -> (step:
    PostStep)
    requires
        old(state).wf(),
    ensures
        final(state).wf(),
        final(state).tool_registry == old(state).tool_registry,
        is_post_step(
            req@,
            str_view(session_id),
            old(state).session_manager@,
            old(state).tool_registry@.dom(),
            old(state).tool_registry.listing(),
            step@,
            final(state).session_manager@,
        ),
{
    if !str_eq(req.jsonrpc.as_str(), JSONRPC_VERSION) {
        return PostStep::Reply(reject(STATUS_BAD_REQUEST, &req.id, "Invalid JSON-RPC version"));
    }
    let is_initialize = str_eq(req.method.as_str(), "initialize");
    let ghost before = state.session_manager@;
    if !is_initialize {
        match session_id {
            None => {
                return PostStep::Reply(
                    reject(STATUS_BAD_REQUEST, &req.id, "Missing Mcp-Session-Id header"),
                );
            },
            Some(sid) => {
                if !state.session_manager.contains(sid) {
                    return PostStep::Reply(reject(STATUS_NOT_FOUND, &req.id, "Unknown session"));
                }
                let touch = |s: &mut Session| -> (done: ())
                    ensures
                        exists|elapsed: u128| *final(s) == #[trigger] old(s).touched(elapsed),
                    {
                        s.touch();
                    };
                let ran = state.session_manager.with_mut(sid, touch);
                proof {
                    let s = choose|s: &mut Session|
                        *s == before[sid@] && #[trigger] touch.ensures((s,), ran->Some_0)
                            && state.session_manager@ == before.insert(sid@, *final(s));
                    let elapsed = choose|elapsed: u128| *final(s) == #[trigger] (*s).touched(elapsed);
                    assert(state.session_manager@ == before.insert(
                        sid@,
                        before[sid@].touched(elapsed),
                    ));
                    assert(touched_in(before, sid@, state.session_manager@));
                }
            },
        }
    }
    let reached = dispatch_step(
        req.method.as_str(),
        req.id,
        req.params,
        session_id,
        &mut state.session_manager,
        &*state.tool_registry,
    );
    match reached {
        DispatchStep::Done(DispatchResult::Response(resp)) => {
            if is_initialize {
                PostStep::Reply(open_session(state, resp, fresh_session_id()))
            } else {
                PostStep::Reply(reply_to(DispatchResult::Response(resp)))
            }
        },
        DispatchStep::Done(other) => PostStep::Reply(reply_to(other)),
        DispatchStep::CallTool { id, name, arguments } => PostStep::CallTool { id, name, arguments },
    }
}

/// Handles a posted request from end to end, with a registry whose
/// handlers run in place.
pub fn post_mcp<H: ToolHandler>(
    state: &mut AppState<H>,
    session_id: Option<&str>,
    req: JsonRpcRequest,
) -> (reply: Reply)
    requires
        old(state).wf(),
    ensures
        final(state).wf(),
        final(state).tool_registry == old(state).tool_registry,
        is_post_outcome(
            req@,
            str_view(session_id),
            old(state).session_manager@,
            old(state).tool_registry@.dom(),
            old(state).tool_registry.listing(),
            |name: Seq<char>, arguments: Option<JsonView>, result: ToolCallResultView|
                old(state).tool_registry.permits(name, arguments, result),
            reply@,
            final(state).session_manager@,
        ),
{
    let step = post_step(state, session_id, req);
    let ghost reached = step@;
    let reply = match step {
        PostStep::Reply(reply) => reply,
        PostStep::CallTool { id, name, arguments } => reply_to(
            complete(DispatchStep::CallTool { id, name, arguments }, &*state.tool_registry),
        ),
    };
    proof {
        let permits = |name: Seq<char>, arguments: Option<JsonView>, result: ToolCallResultView|
            old(state).tool_registry.permits(name, arguments, result);
        assert(post_completes(reached, old(state).tool_registry@.dom(), permits, reply@));
    }
    reply
}

/// Answers a request for the event stream: refused without the identifier
/// of a live session, open with a heartbeat otherwise.
pub fn get_mcp<H>(state: &AppState<H>, session_id: Option<&str>) -> (answer:
    StreamReply)
    requires
        state.wf(),
    ensures
        answer == match session_id {
            None => StreamReply::Refused(STATUS_BAD_REQUEST),
            Some(sid) => if state.session_manager@.contains_key(sid@) {
                StreamReply::Open { keep_alive_secs: KEEP_ALIVE_SECS }
            } else {
                StreamReply::Refused(STATUS_NOT_FOUND)
            },
        },
{
    match session_id {
        None => StreamReply::Refused(STATUS_BAD_REQUEST),
        Some(sid) => {
            if state.session_manager.contains(sid) {
                StreamReply::Open { keep_alive_secs: KEEP_ALIVE_SECS }
            } else {
                StreamReply::Refused(STATUS_NOT_FOUND)
            }
        },
    }
}

/// Ends a session. The status says whether there was one: ending a session
/// that is not there changes nothing and reports that it was not found.
pub fn delete_mcp<H>(state: &mut AppState<H>, session_id: Option<&str>) -> (status:
    u16)
    requires
        old(state).wf(),
    ensures
        final(state).wf(),
        final(state).tool_registry == old(state).tool_registry,
        match session_id {
            None => status == STATUS_BAD_REQUEST && final(state).session_manager@ == old(state).session_manager@,
            Some(sid) => status == (if old(state).session_manager@.contains_key(sid@) {
                STATUS_OK
            } else {
                STATUS_NOT_FOUND
            }) && final(state).session_manager@ == old(state).session_manager@.remove(sid@),
        },
{
    match session_id {
        None => STATUS_BAD_REQUEST,
        Some(sid) => {
            if state.session_manager.destroy(sid) {
                STATUS_OK
            } else {
                STATUS_NOT_FOUND
            }
        },
    }
}

} // verus!
