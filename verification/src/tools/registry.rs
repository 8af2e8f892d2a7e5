//! The tool registry: descriptors and handlers by tool name.

use vstd::prelude::*;
use crate::json::{owned_view, Json, JsonView};
use crate::protocol::mcp::{tool_views, Tool, ToolCallResult, ToolCallResultView, ToolView};
use crate::table::Table;

verus! {

/// What runs when a tool is called.
///
/// `permits` says which results the handler may give for which arguments. A
/// handler that says nothing permits every result; one whose result depends
/// on more than its arguments permits every result that it could give.
pub trait ToolHandler: Send + Sync {
    open spec fn permits(&self, arguments: Option<JsonView>, result: ToolCallResultView) -> bool {
        true
    }

    fn invoke(&self, arguments: Option<Json>) -> (result: ToolCallResult)
        ensures
            self.permits(owned_view(arguments), result@),
    ;
}

/// A descriptor with the handler bound to it.
struct Binding<H> {
    tool: Tool,
    handler: H,
}

/// The registry of tools. A tool is known by its descriptor's name; the
/// registry owns the descriptor and the handler, and callers reach both by
/// name only.
pub struct ToolRegistry<H> {
    tools: Table<Binding<H>>,
}

/// The map that a series of registrations leaves, from the first to the
/// last: each name is bound to the descriptor that was registered last
/// under it.
pub open spec fn registered(tools: Seq<ToolView>) -> Map<Seq<char>, ToolView>
    decreases tools.len(),
{
    if tools.len() == 0 {
        Map::empty()
    } else {
        registered(tools.drop_last()).insert(tools.last().name, tools.last())
    }
}

/// Whether `listing` shows the descriptors of `tools`, each of them once,
/// and nothing else.
pub open spec fn is_listing_of(listing: Seq<ToolView>, tools: Map<Seq<char>, ToolView>) -> bool {
    &&& forall|i: int|
        0 <= i < listing.len() ==> tools.contains_key(#[trigger] listing[i].name)
            && tools[listing[i].name] == listing[i]
    &&& forall|i: int, j: int|
        0 <= i < j < listing.len() ==> listing[i].name != listing[j].name
    &&& forall|name: Seq<char>| #[trigger]
        tools.contains_key(name) ==> exists|i: int|
            0 <= i < listing.len() && #[trigger] listing[i].name == name
}

/// After any series of registrations, the names that the registry knows
/// are the names that were registered, and each is bound to the descriptor
/// that was registered last under it.
pub proof fn lemma_registered(tools: Seq<ToolView>)
    ensures
        forall|name: Seq<char>| #[trigger]
            registered(tools).contains_key(name) <==> exists|i: int|
                0 <= i < tools.len() && #[trigger] tools[i].name == name,
        forall|i: int|
            0 <= i < tools.len() && (forall|j: int|
                i < j < tools.len() ==> #[trigger] tools[j].name != tools[i].name)
                ==> registered(tools)[#[trigger] tools[i].name] == tools[i],
    decreases tools.len(),
{
    if tools.len() > 0 {
        let rest = tools.drop_last();
        lemma_registered(rest);
        assert forall|name: Seq<char>| #[trigger]
            registered(tools).contains_key(name) <==> exists|i: int|
                0 <= i < tools.len() && #[trigger] tools[i].name == name by {
            if registered(tools).contains_key(name) {
                if name == tools.last().name {
                    assert(tools[tools.len() - 1].name == name);
                } else {
                    assert(registered(rest).contains_key(name));
                    let i = choose|i: int| 0 <= i < rest.len() && #[trigger] rest[i].name == name;
                    assert(tools[i].name == name);
                }
            }
            if exists|i: int| 0 <= i < tools.len() && #[trigger] tools[i].name == name {
                let i = choose|i: int| 0 <= i < tools.len() && #[trigger] tools[i].name == name;
                if i < rest.len() {
                    assert(rest[i].name == name);
                }
            }
        }
        assert forall|i: int|
            0 <= i < tools.len() && (forall|j: int|
                i < j < tools.len() ==> #[trigger] tools[j].name != tools[i].name) implies registered(
            tools,
        )[#[trigger] tools[i].name] == tools[i] by {
            if i < rest.len() {
                assert(rest[i] == tools[i]);
                assert(tools[tools.len() - 1].name != tools[i].name);
                assert forall|j: int| i < j < rest.len() implies #[trigger] rest[j].name != rest[i].name by {
                    assert(tools[j].name != tools[i].name);
                }
            }
        }
    }
}

/// The names that occur in a series of descriptors.
pub open spec fn names_of(tools: Seq<ToolView>) -> Set<Seq<char>> {
    Set::new(
        |name: Seq<char>| exists|i: int| 0 <= i < tools.len() && #[trigger] tools[i].name == name,
    )
}

/// What a listing shows after a series of registrations on an empty
/// registry: the names that were registered, each once, and under each
/// name the descriptor that was registered last.
pub proof fn lemma_listing_after_registrations(tools: Seq<ToolView>, listing: Seq<ToolView>)
    requires
        is_listing_of(listing, registered(tools)),
    ensures
        names_of(listing) == names_of(tools),
        forall|i: int, j: int|
            0 <= i < j < listing.len() ==> listing[i].name != listing[j].name,
        forall|i: int, j: int|
            0 <= i < listing.len() && 0 <= j < tools.len() && tools[j].name == listing[i].name && (
            forall|k: int| j < k < tools.len() ==> #[trigger] tools[k].name != tools[j].name)
                ==> #[trigger] listing[i] == #[trigger] tools[j],
{
    lemma_registered(tools);
    assert forall|name: Seq<char>| names_of(listing).contains(name) <==> names_of(
        tools,
    ).contains(name) by {
        if names_of(listing).contains(name) {
            let i = choose|i: int| 0 <= i < listing.len() && #[trigger] listing[i].name == name;
            assert(registered(tools).contains_key(listing[i].name));
        }
        if names_of(tools).contains(name) {
            assert(registered(tools).contains_key(name));
        }
    }
    assert(names_of(listing) =~= names_of(tools));
    assert forall|i: int, j: int|
        0 <= i < listing.len() && 0 <= j < tools.len() && tools[j].name == listing[i].name && (
        forall|k: int| j < k < tools.len() ==> #[trigger] tools[k].name != tools[j].name)
            implies #[trigger] listing[i] == #[trigger] tools[j] by {
        assert(registered(tools)[listing[i].name] == listing[i]);
        assert(registered(tools)[tools[j].name] == tools[j]);
    }
}

impl<H> ToolRegistry<H> {
    /// The registry's internal invariant: every binding stands under the
    /// name of its own descriptor.
    pub closed spec fn wf(&self) -> bool {
        &&& self.tools.wf()
        &&& forall|name: Seq<char>| #[trigger]
            self.tools@.contains_key(name) ==> self.tools@[name].tool.name@ == name
    }

    /// The descriptors by name.
    pub closed spec fn view(&self) -> Map<Seq<char>, ToolView> {
        Map::new(
            |name: Seq<char>| self.tools@.contains_key(name),
            |name: Seq<char>| self.tools@[name].tool@,
        )
    }

    /// The handlers by name.
    pub closed spec fn handlers(&self) -> Map<Seq<char>, H> {
        Map::new(
            |name: Seq<char>| self.tools@.contains_key(name),
            |name: Seq<char>| self.tools@[name].handler,
        )
    }

    /// The descriptors in the order in which `list` gives them: that in
    /// which their names were first registered.
    pub closed spec fn listing(&self) -> Seq<ToolView> {
        Seq::new(self.tools.values().len(), |i: int| self.tools.values()[i].tool@)
    }

    /// The listing shows the registry's descriptors, each once, and nothing
    /// else; each stands under its own name.
    pub proof fn lemma_listing(&self)
        requires
            self.wf(),
        ensures
            is_listing_of(self.listing(), self@),
            forall|name: Seq<char>| #[trigger] self@.contains_key(name) ==> self@[name].name == name,
            self.handlers().dom() == self@.dom(),
    {
        assert(self.handlers().dom() =~= self@.dom());
        self.tools.lemma_layout();
        let listing = self.listing();
        let keys = self.tools.keys();
        assert forall|i: int| 0 <= i < listing.len() implies self@.contains_key(
            #[trigger] listing[i].name,
        ) && self@[listing[i].name] == listing[i] && listing[i].name == keys[i] by {
            assert(self.tools@.contains_key(keys[i]));
        }
        assert forall|name: Seq<char>| #[trigger] self@.contains_key(name) implies exists|i: int|
            0 <= i < listing.len() && #[trigger] listing[i].name == name by {
            let i = self.tools.slot(name);
            assert(self.tools@.contains_key(keys[i]));
            assert(listing[i].name == name);
        }
    }

    /// An empty registry.
    pub fn new() -> (registry: Self)
        ensures
            registry.wf(),
            registry@ == Map::<Seq<char>, ToolView>::empty(),
            registry.handlers() == Map::<Seq<char>, H>::empty(),
            registry.listing() == Seq::<ToolView>::empty(),
    {
        let registry = ToolRegistry { tools: Table::new() };
        proof {
            registry.tools.lemma_layout();
            assert(registry@ =~= Map::<Seq<char>, ToolView>::empty());
            assert(registry.handlers() =~= Map::<Seq<char>, H>::empty());
            assert(registry.listing() =~= Seq::<ToolView>::empty());
        }
        registry
    }

    /// Binds a descriptor and a handler to the descriptor's name. Whatever
    /// was bound to that name before is gone; every other name keeps what it
    /// had.
    pub fn register(&mut self, tool: Tool, handler: H)
        requires
            old(self).wf(),
        ensures
            final(self).wf(),
            final(self)@ == old(self)@.insert(tool.name@, tool@),
            final(self).handlers() == old(self).handlers().insert(tool.name@, handler),
            old(self)@.contains_key(tool.name@) ==> final(self).listing().len() == old(self).listing().len(),
            !old(self)@.contains_key(tool.name@) ==> final(self).listing() == old(self).listing().push(tool@),
    {
        let name = tool.name.clone();
        proof {
            self.tools.lemma_layout();
        }
        self.tools.insert(name, Binding { tool, handler });
        proof {
            self.tools.lemma_layout();
            assert(self@ =~= old(self)@.insert(tool.name@, tool@));
            assert(self.handlers() =~= old(self).handlers().insert(tool.name@, handler));
            if !old(self)@.contains_key(tool.name@) {
                assert(self.listing() =~= old(self).listing().push(tool@));
            }
        }
    }

    /// A copy of every descriptor.
    pub fn list(&self) -> (listing: Vec<Tool>)
        requires
            self.wf(),
        ensures
            tool_views(listing@) == self.listing(),
            is_listing_of(self.listing(), self@),
    {
        let mut listing: Vec<Tool> = Vec::new();
        let mut i: usize = 0;
        proof {
            self.tools.lemma_layout();
        }
        while i < self.tools.len()
            invariant
                i <= self.tools.keys().len(),
                self.tools.keys().len() == self.tools.values().len(),
                listing.len() == i,
                forall|k: int| 0 <= k < i ==> listing@[k]@ == self.tools.values()[k].tool@,
            decreases self.tools.keys().len() - i,
        {
            listing.push(self.tools.value_at(i).tool.clone());
            i += 1;
        }
        proof {
            self.lemma_listing();
            assert(tool_views(listing@) =~= self.listing());
        }
        listing
    }

    /// Whether a tool has the name `name`.
    pub fn contains(&self, name: &str) -> (known: bool)
        requires
            self.wf(),
        ensures
            known == self@.contains_key(name@),
    {
        self.tools.get(name).is_some()
    }

    /// The handler bound to `name`; `None` where no tool has that name.
    pub fn handler(&self, name: &str) -> (found: Option<&H>)
        requires
            self.wf(),
        ensures
            match found {
                Some(h) => self@.contains_key(name@) && self.handlers()[name@] == *h,
                None => !self@.contains_key(name@),
            },
    {
        match self.tools.get(name) {
            Some(binding) => Some(&binding.handler),
            None => None,
        }
    }
}

impl<H: ToolHandler> ToolRegistry<H> {
    /// Whether the handler bound to `name` may give `result` for
    /// `arguments`.
    pub open spec fn permits(
        &self,
        name: Seq<char>,
        arguments: Option<JsonView>,
        result: ToolCallResultView,
    ) -> bool {
        self.handlers()[name].permits(arguments, result)
    }

    /// Calls the tool `name` with `arguments` and returns what its handler
    /// gives; `None` where no tool has that name.
    pub fn call(&self, name: &str, arguments: Option<Json>) -> (outcome: Option<ToolCallResult>)
        requires
            self.wf(),
        ensures
            match outcome {
                Some(result) => self@.contains_key(name@) && self.permits(
                    name@,
                    owned_view(arguments),
                    result@,
                ),
                None => !self@.contains_key(name@),
            },
    {
        match self.handler(name) {
            Some(handler) => Some(handler.invoke(arguments)),
            None => None,
        }
    }
}

} // verus!
