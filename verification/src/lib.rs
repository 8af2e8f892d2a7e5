//! Protocol core of a JSON-RPC tool gateway: message shapes and their wire
//! encoding, the session store, the tool registry, the method dispatcher and
//! the transport decisions around it.

pub mod text;
pub mod json;
pub mod table;
pub mod protocol;
pub mod session;
pub mod tools;
pub mod gateway;
pub mod transport;

use vstd::prelude::*;
use std::sync::Arc;
use crate::session::manager::SessionManager;
use crate::tools::registry::ToolRegistry;

verus! {

/// What every request works on: the session store, and the tool registry,
/// which is shared and no longer changes.
pub struct AppState<H> {
    pub session_manager: SessionManager,
    pub tool_registry: Arc<ToolRegistry<H>>,
}

impl<H> AppState<H> {
    /// Both parts are well formed.
    pub open spec fn wf(&self) -> bool {
        self.session_manager.wf() && self.tool_registry.wf()
    }
}

} // verus!
