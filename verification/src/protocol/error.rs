//! JSON-RPC error codes and the error payload.

use vstd::prelude::*;
use crate::json::{put, Json, JsonNumber, JsonView};

verus! {

/// The request body was not valid JSON.
pub const PARSE_ERROR: i64 = -32700;

/// The envelope was not a valid request.
pub const INVALID_REQUEST: i64 = -32600;

/// The method, or the tool, does not exist.
pub const METHOD_NOT_FOUND: i64 = -32601;

/// The parameters were missing or of the wrong shape.
pub const INVALID_PARAMS: i64 = -32602;

/// A result could not be encoded.
pub const INTERNAL_ERROR: i64 = -32603;

/// The model of an error payload: an object with the members `code` and
/// `message`, in that order.
pub open spec fn error_payload(code: i64, message: Seq<char>) -> JsonView {
    JsonView::Object(
        seq![
            ("code"@, JsonView::Number(JsonNumber::of_int(code))),
            ("message"@, JsonView::Text(message)),
        ],
    )
}

/// Builds the error payload for a code and a message.
pub fn error_object(code: i64, message: &str) -> (payload: Json)
    ensures
        payload@ == error_payload(code, message@),
{
    let mut entries: Vec<(String, Json)> = Vec::new();
    put(&mut entries, "code", Json::integer(code));
    put(&mut entries, "message", Json::text(message));
    let payload = Json::object(entries);
    assert(payload@->Object_0 =~= error_payload(code, message@)->Object_0);
    payload
}

} // verus!
