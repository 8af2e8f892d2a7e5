//! The tool `ping`: it takes no arguments and answers `pong`.

use vstd::prelude::*;
use crate::json::{put, Json, JsonView};
use crate::protocol::mcp::{Tool, ToolCallResult, ToolCallResultView, ToolContent, ToolContentView, ToolView};
use crate::text::owned;
use crate::tools::registry::{ToolHandler, ToolRegistry};

verus! {

/// The handler of the tool `ping`.
pub struct PingTool {}

/// What `ping` answers: one text item, `pong`, and no error flag.
pub open spec fn pong() -> ToolCallResultView {
    ToolCallResultView { content: seq![ToolContentView::Text { text: "pong"@ }], is_error: None }
}

/// The descriptor of `ping`. Its arguments are an object of which no
/// property is named.
pub open spec fn ping_descriptor() -> ToolView {
    ToolView {
        name: "ping"@,
        description: "Returns pong"@,
        input_schema: JsonView::Object(
            seq![
                ("type"@, JsonView::Text("object"@)),
                ("properties"@, JsonView::Object(Seq::empty())),
            ],
        ),
    }
}

impl ToolHandler for PingTool {
    open spec fn permits(&self, arguments: Option<JsonView>, result: ToolCallResultView) -> bool {
        result == pong()
    }

    fn invoke(&self, arguments: Option<Json>) -> (result: ToolCallResult) {
        let mut content: Vec<ToolContent> = Vec::new();
        content.push(ToolContent::Text { text: owned("pong") });
        let result = ToolCallResult { content, is_error: None };
        assert(result@.content =~= pong().content);
        result
    }
}

/// The descriptor of `ping`.
pub fn descriptor() -> (tool: Tool)
    ensures
        tool@ == ping_descriptor(),
{
    let mut schema: Vec<(String, Json)> = Vec::new();
    put(&mut schema, "type", Json::text("object"));
    put(&mut schema, "properties", Json::empty_object());
    let input_schema = Json::object(schema);
    assert(input_schema@->Object_0 =~= ping_descriptor().input_schema->Object_0);
    Tool { name: owned("ping"), description: owned("Returns pong"), input_schema }
}

/// Registers the tool `ping`.
pub fn register(registry: &mut ToolRegistry<PingTool>)
    requires
        old(registry).wf(),
    ensures
        final(registry).wf(),
        final(registry)@ == old(registry)@.insert("ping"@, ping_descriptor()),
        final(registry).handlers() == old(registry).handlers().insert("ping"@, PingTool {  }),
        old(registry)@.contains_key("ping"@) ==> final(registry).listing().len() == old(registry).listing().len(),
        !old(registry)@.contains_key("ping"@) ==> final(registry).listing() == old(registry).listing().push(ping_descriptor()),
{
    registry.register(descriptor(), PingTool {  });
}

} // verus!
