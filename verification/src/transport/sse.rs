//! Events of the server-to-client stream.

use vstd::prelude::*;
use crate::json::Json;

verus! {

/// The name of the event that carries an envelope.
pub const MESSAGE_EVENT: &'static str = "message";

/// An event of the stream: its name, and the document that it carries.
#[derive(Debug, PartialEq, Eq)]
pub struct StreamEvent {
    pub event: &'static str,
    pub data: Json,
}

/// The event that carries a response or an error, given in its wire form.
pub fn json_rpc_event(data: Json) -> (event: StreamEvent)
    ensures
        event.event@ == MESSAGE_EVENT@,
        event.data == data,
{
    StreamEvent { event: MESSAGE_EVENT, data }
}

} // verus!
