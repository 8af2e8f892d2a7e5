//! Tools: the registry, and the tool that comes with the server.

pub mod ping;
pub mod registry;

use vstd::prelude::*;
use crate::protocol::mcp::ToolView;
use crate::tools::ping::{ping_descriptor, PingTool};
use crate::tools::registry::ToolRegistry;

verus! {

/// The registry with which the server starts: the tool `ping`, and nothing
/// else.
pub fn build_registry() -> (registry: ToolRegistry<PingTool>)
    ensures
        registry.wf(),
        registry@ == Map::<Seq<char>, ToolView>::empty().insert("ping"@, ping_descriptor()),
        registry.listing() == seq![ping_descriptor()],
        registry.handlers() == Map::<Seq<char>, PingTool>::empty().insert("ping"@, PingTool {  }),
{
    let mut registry = ToolRegistry::new();
    ping::register(&mut registry);
    assert(registry.listing() =~= seq![ping_descriptor()]);
    registry
}

} // verus!
