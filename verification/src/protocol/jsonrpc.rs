//! The request, response and error envelopes.

use vstd::prelude::*;
use crate::json::{owned_view, present, put, Json, JsonView};
use crate::text::owned;

verus! {

/// The version tag that every envelope carries.
pub const JSONRPC_VERSION: &'static str = "2.0";

/// A decoded request: a call when `id` is present, a notification when not.
#[derive(Debug)]
pub struct JsonRpcRequest {
    pub jsonrpc: String,
    pub id: Option<Json>,
    pub method: String,
    pub params: Option<Json>,
}

/// A successful reply to a call.
#[derive(Debug)]
pub struct JsonRpcResponse {
    pub jsonrpc: &'static str,
    pub id: Json,
    pub result: Json,
}

/// A reply that reports a protocol error.
#[derive(Debug)]
pub struct JsonRpcErrorResponse {
    pub jsonrpc: &'static str,
    pub id: Json,
    pub error: Json,
}

/// The model of a [`JsonRpcRequest`].
pub struct JsonRpcRequestView {
    pub jsonrpc: Seq<char>,
    pub id: Option<JsonView>,
    pub method: Seq<char>,
    pub params: Option<JsonView>,
}

impl View for JsonRpcRequest {
    type V = JsonRpcRequestView;

    open spec fn view(&self) -> JsonRpcRequestView {
        JsonRpcRequestView {
            jsonrpc: self.jsonrpc@,
            id: owned_view(self.id),
            method: self.method@,
            params: owned_view(self.params),
        }
    }
}

impl JsonRpcRequestView {
    /// Reads a request envelope: `jsonrpc` and `method` are strings, `id`
    /// and `params` are optional documents. The version tag is read, not
    /// judged.
    pub open spec fn decode(doc: JsonView) -> Option<JsonRpcRequestView> {
        if !doc.fits(4) {
            None
        } else {
            match (doc.member("jsonrpc"@, 0), doc.member("method"@, 2)) {
                (Some(JsonView::Text(jsonrpc)), Some(JsonView::Text(method))) => Some(
                    JsonRpcRequestView {
                        jsonrpc,
                        id: present(doc.member("id"@, 1)),
                        method,
                        params: present(doc.member("params"@, 3)),
                    },
                ),
                _ => None,
            }
        }
    }
}

/// The model of a request that may be absent.
pub open spec fn request_view(request: Option<JsonRpcRequest>) -> Option<JsonRpcRequestView> {
    match request {
        Some(r) => Some(r@),
        None => None,
    }
}

impl JsonRpcRequest {
    /// Reads a request envelope; `None` where the document is not one.
    pub fn from_json(doc: &Json) -> (request: Option<JsonRpcRequest>)
        ensures
            request_view(request) == JsonRpcRequestView::decode(doc@),
    {
        if !doc.fits(4) {
            return None;
        }
        let jsonrpc = match doc.member("jsonrpc", 0) {
            Some(field) => match field.as_str() {
                Some(s) => owned(s),
                None => {
                    return None;
                },
            },
            None => {
                return None;
            },
        };
        let method = match doc.member("method", 2) {
            Some(field) => match field.as_str() {
                Some(s) => owned(s),
                None => {
                    return None;
                },
            },
            None => {
                return None;
            },
        };
        let id = match Json::optional(doc.member("id", 1)) {
            Some(i) => Some(i.clone()),
            None => None,
        };
        let params = match Json::optional(doc.member("params", 3)) {
            Some(p) => Some(p.clone()),
            None => None,
        };
        Some(JsonRpcRequest { jsonrpc, id, method, params })
    }
}

/// The model of a [`JsonRpcResponse`].
pub struct JsonRpcResponseView {
    pub jsonrpc: Seq<char>,
    pub id: JsonView,
    pub result: JsonView,
}

/// The model of a [`JsonRpcErrorResponse`].
pub struct JsonRpcErrorResponseView {
    pub jsonrpc: Seq<char>,
    pub id: JsonView,
    pub error: JsonView,
}

impl View for JsonRpcResponse {
    type V = JsonRpcResponseView;

    open spec fn view(&self) -> JsonRpcResponseView {
        JsonRpcResponseView { jsonrpc: self.jsonrpc@, id: self.id@, result: self.result@ }
    }
}

impl View for JsonRpcErrorResponse {
    type V = JsonRpcErrorResponseView;

    open spec fn view(&self) -> JsonRpcErrorResponseView {
        JsonRpcErrorResponseView { jsonrpc: self.jsonrpc@, id: self.id@, error: self.error@ }
    }
}

impl JsonRpcResponseView {
    /// The response that carries `result` for the call `id`.
    pub open spec fn of(id: JsonView, result: JsonView) -> JsonRpcResponseView {
        JsonRpcResponseView { jsonrpc: JSONRPC_VERSION@, id, result }
    }

    /// The wire form: the members `jsonrpc`, `id` and `result`.
    pub open spec fn wire(self) -> JsonView {
        JsonView::Object(
            seq![
                ("jsonrpc"@, JsonView::Text(self.jsonrpc)),
                ("id"@, self.id),
                ("result"@, self.result),
            ],
        )
    }
}

impl JsonRpcErrorResponseView {
    /// The error reply that carries `error` for the call `id`.
    pub open spec fn of(id: JsonView, error: JsonView) -> JsonRpcErrorResponseView {
        JsonRpcErrorResponseView { jsonrpc: JSONRPC_VERSION@, id, error }
    }

    /// The wire form: the members `jsonrpc`, `id` and `error`.
    pub open spec fn wire(self) -> JsonView {
        JsonView::Object(
            seq![
                ("jsonrpc"@, JsonView::Text(self.jsonrpc)),
                ("id"@, self.id),
                ("error"@, self.error),
            ],
        )
    }
}

impl JsonRpcResponse {
    pub fn new(id: Json, result: Json) -> (response: Self)
        ensures
            response@ == JsonRpcResponseView::of(id@, result@),
            response.id == id,
            response.result == result,
    {
        Self { jsonrpc: JSONRPC_VERSION, id, result }
    }

    /// Encodes the envelope for the wire.
    pub fn to_json(&self) -> (doc: Json)
        ensures
            doc@ == self@.wire(),
    {
        let mut entries: Vec<(String, Json)> = Vec::new();
        put(&mut entries, "jsonrpc", Json::text(self.jsonrpc));
        put(&mut entries, "id", self.id.clone());
        put(&mut entries, "result", self.result.clone());
        let doc = Json::object(entries);
        assert(doc@->Object_0 =~= self@.wire()->Object_0);
        doc
    }
}

impl JsonRpcErrorResponse {
    pub fn new(id: Json, error: Json) -> (response: Self)
        ensures
            response@ == JsonRpcErrorResponseView::of(id@, error@),
            response.id == id,
            response.error == error,
    {
        Self { jsonrpc: JSONRPC_VERSION, id, error }
    }

    /// Encodes the envelope for the wire.
    pub fn to_json(&self) -> (doc: Json)
        ensures
            doc@ == self@.wire(),
    {
        let mut entries: Vec<(String, Json)> = Vec::new();
        put(&mut entries, "jsonrpc", Json::text(self.jsonrpc));
        put(&mut entries, "id", self.id.clone());
        put(&mut entries, "error", self.error.clone());
        let doc = Json::object(entries);
        assert(doc@->Object_0 =~= self@.wire()->Object_0);
        doc
    }
}

} // verus!
