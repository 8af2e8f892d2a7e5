//! The domain messages: the initialize handshake, tool descriptors, tool
//! calls and their results, with the rules by which each is read from and
//! written to JSON.
//!
//! A message is read from an object, field by field under its wire name, or
//! from an array, field by field in declaration order. Unknown object members
//! are ignored. An optional field may be missing or `null`.

use vstd::prelude::*;
use crate::json::{owned_view, present, put, Json, JsonView};
use crate::text::owned;

verus! {

/// The name under which this server identifies itself.
pub const SERVER_NAME: &'static str = "apilab";

/// The version under which this server identifies itself.
pub const SERVER_VERSION: &'static str = "0.1.0";

// --- Initialize ---

/// Who the client says it is.
#[derive(Debug, PartialEq, Eq)]
pub struct ClientInfo {
    pub name: String,
    pub version: Option<String>,
}

/// The model of a [`ClientInfo`].
pub struct ClientInfoView {
    pub name: Seq<char>,
    pub version: Option<Seq<char>>,
}

impl View for ClientInfo {
    type V = ClientInfoView;

    open spec fn view(&self) -> ClientInfoView {
        ClientInfoView {
            name: self.name@,
            version: match self.version {
                Some(v) => Some(v@),
                None => None,
            },
        }
    }
}

impl ClientInfoView {
    /// Reads a client description: `name` is a string, `version` an optional
    /// string.
    pub open spec fn decode(doc: JsonView) -> Option<ClientInfoView> {
        if !doc.fits(2) {
            None
        } else {
            match doc.member("name"@, 0) {
                Some(JsonView::Text(name)) => match present(doc.member("version"@, 1)) {
                    None => Some(ClientInfoView { name, version: None }),
                    Some(JsonView::Text(version)) => Some(
                        ClientInfoView { name, version: Some(version) },
                    ),
                    Some(_) => None,
                },
                _ => None,
            }
        }
    }
}

/// The model of a client description that may be absent.
pub open spec fn client_view(info: Option<ClientInfo>) -> Option<ClientInfoView> {
    match info {
        Some(c) => Some(c@),
        None => None,
    }
}

impl ClientInfo {
    /// Reads a client description; `None` where the document is not one.
    pub fn from_json(doc: &Json) -> (info: Option<ClientInfo>)
        ensures
            client_view(info) == ClientInfoView::decode(doc@),
    {
        if !doc.fits(2) {
            return None;
        }
        let name = match doc.member("name", 0) {
            Some(field) => match field.as_str() {
                Some(s) => owned(s),
                None => {
                    return None;
                },
            },
            None => {
                return None;
            },
        };
        match Json::optional(doc.member("version", 1)) {
            None => Some(ClientInfo { name, version: None }),
            Some(field) => match field.as_str() {
                Some(s) => Some(ClientInfo { name, version: Some(owned(s)) }),
                None => None,
            },
        }
    }
}

/// What a client sends to open a conversation.
#[derive(Debug)]
pub struct InitializeParams {
    pub protocol_version: String,
    pub capabilities: Json,
    pub client_info: Option<ClientInfo>,
}

/// The model of [`InitializeParams`].
pub struct InitializeParamsView {
    pub protocol_version: Seq<char>,
    pub capabilities: JsonView,
    pub client_info: Option<ClientInfoView>,
}

impl View for InitializeParams {
    type V = InitializeParamsView;

    open spec fn view(&self) -> InitializeParamsView {
        InitializeParamsView {
            protocol_version: self.protocol_version@,
            capabilities: self.capabilities@,
            client_info: client_view(self.client_info),
        }
    }
}

impl InitializeParamsView {
    /// Reads initialize parameters: `protocolVersion` is a string;
    /// `capabilities` is any document, `null` when missing; `clientInfo` is
    /// an optional client description.
    pub open spec fn decode(doc: JsonView) -> Option<InitializeParamsView> {
        if !doc.fits(3) {
            None
        } else {
            match doc.member("protocolVersion"@, 0) {
                Some(JsonView::Text(protocol_version)) => {
                    let capabilities = match doc.member("capabilities"@, 1) {
                        Some(c) => c,
                        None => JsonView::Null,
                    };
                    match present(doc.member("clientInfo"@, 2)) {
                        None => Some(
                            InitializeParamsView {
                                protocol_version,
                                capabilities,
                                client_info: None,
                            },
                        ),
                        Some(c) => match ClientInfoView::decode(c) {
                            Some(info) => Some(
                                InitializeParamsView {
                                    protocol_version,
                                    capabilities,
                                    client_info: Some(info),
                                },
                            ),
                            None => None,
                        },
                    }
                },
                _ => None,
            }
        }
    }
}

/// The model of initialize parameters that may be absent.
pub open spec fn initialize_view(params: Option<InitializeParams>) -> Option<
    InitializeParamsView,
> {
    match params {
        Some(p) => Some(p@),
        None => None,
    }
}

impl InitializeParams {
    /// Reads initialize parameters; `None` where the document is not of
    /// their shape.
    pub fn from_json(doc: &Json) -> (params: Option<InitializeParams>)
        ensures
            initialize_view(params) == InitializeParamsView::decode(doc@),
    {
        if !doc.fits(3) {
            return None;
        }
        let protocol_version = match doc.member("protocolVersion", 0) {
            Some(field) => match field.as_str() {
                Some(s) => owned(s),
                None => {
                    return None;
                },
            },
            None => {
                return None;
            },
        };
        let capabilities = match doc.member("capabilities", 1) {
            Some(c) => c.clone(),
            None => Json::Null,
        };
        match Json::optional(doc.member("clientInfo", 2)) {
            None => Some(InitializeParams { protocol_version, capabilities, client_info: None }),
            Some(field) => match ClientInfo::from_json(field) {
                Some(info) => Some(
                    InitializeParams { protocol_version, capabilities, client_info: Some(info) },
                ),
                None => None,
            },
        }
    }
}

/// The capability of listing and calling tools. It has no settings.
#[derive(Debug, PartialEq, Eq)]
pub struct ToolsCapability {}

impl ToolsCapability {
    /// The wire form: an empty object.
    pub open spec fn wire() -> JsonView {
        JsonView::Object(Seq::empty())
    }

    /// Encodes the capability for the wire.
    pub fn to_json(&self) -> (doc: Json)
        ensures
            doc@ == Self::wire(),
    {
        Json::empty_object()
    }
}

/// What the server can do.
#[derive(Debug, PartialEq, Eq)]
pub struct ServerCapabilities {
    pub tools: Option<ToolsCapability>,
}

impl ServerCapabilities {
    /// The wire form: the member `tools` where the capability is present, and
    /// no member where it is not.
    pub open spec fn wire(self) -> JsonView {
        match self.tools {
            Some(_) => JsonView::Object(seq![("tools"@, ToolsCapability::wire())]),
            None => JsonView::Object(Seq::empty()),
        }
    }

    /// Encodes the capability set for the wire.
    pub fn to_json(&self) -> (doc: Json)
        ensures
            doc@ == self.wire(),
    {
        let mut entries: Vec<(String, Json)> = Vec::new();
        match &self.tools {
            Some(tools) => {
                put(&mut entries, "tools", tools.to_json());
            },
            None => {},
        }
        let doc = Json::object(entries);
        assert(doc@->Object_0 =~= self.wire()->Object_0);
        doc
    }
}

/// Who the server says it is.
#[derive(Debug, PartialEq, Eq)]
pub struct ServerInfo {
    pub name: String,
    pub version: String,
}

/// The model of a [`ServerInfo`].
pub struct ServerInfoView {
    pub name: Seq<char>,
    pub version: Seq<char>,
}

impl View for ServerInfo {
    type V = ServerInfoView;

    open spec fn view(&self) -> ServerInfoView {
        ServerInfoView { name: self.name@, version: self.version@ }
    }
}

impl ServerInfoView {
    /// The wire form: the members `name` and `version`.
    pub open spec fn wire(self) -> JsonView {
        JsonView::Object(
            seq![("name"@, JsonView::Text(self.name)), ("version"@, JsonView::Text(self.version))],
        )
    }
}

impl ServerInfo {
    /// Encodes the server identity for the wire.
    pub fn to_json(&self) -> (doc: Json)
        ensures
            doc@ == self@.wire(),
    {
        let mut entries: Vec<(String, Json)> = Vec::new();
        put(&mut entries, "name", Json::text(self.name.as_str()));
        put(&mut entries, "version", Json::text(self.version.as_str()));
        let doc = Json::object(entries);
        assert(doc@->Object_0 =~= self@.wire()->Object_0);
        doc
    }
}

/// The server's answer to `initialize`.
#[derive(Debug, PartialEq, Eq)]
pub struct InitializeResult {
    pub protocol_version: String,
    pub capabilities: ServerCapabilities,
    pub server_info: ServerInfo,
}

/// The model of an [`InitializeResult`].
pub struct InitializeResultView {
    pub protocol_version: Seq<char>,
    pub capabilities: ServerCapabilities,
    pub server_info: ServerInfoView,
}

impl View for InitializeResult {
    type V = InitializeResultView;

    open spec fn view(&self) -> InitializeResultView {
        InitializeResultView {
            protocol_version: self.protocol_version@,
            capabilities: self.capabilities,
            server_info: self.server_info@,
        }
    }
}

impl InitializeResultView {
    /// The wire form: the members `protocolVersion`, `capabilities` and
    /// `serverInfo`.
    pub open spec fn wire(self) -> JsonView {
        JsonView::Object(
            seq![
                ("protocolVersion"@, JsonView::Text(self.protocol_version)),
                ("capabilities"@, self.capabilities.wire()),
                ("serverInfo"@, self.server_info.wire()),
            ],
        )
    }
}

impl InitializeResult {
    /// Encodes the result for the wire.
    pub fn to_json(&self) -> (doc: Json)
        ensures
            doc@ == self@.wire(),
    {
        let mut entries: Vec<(String, Json)> = Vec::new();
        put(&mut entries, "protocolVersion", Json::text(self.protocol_version.as_str()));
        put(&mut entries, "capabilities", self.capabilities.to_json());
        put(&mut entries, "serverInfo", self.server_info.to_json());
        let doc = Json::object(entries);
        assert(doc@->Object_0 =~= self@.wire()->Object_0);
        doc
    }
}

// --- Tools ---

/// The descriptor of a tool: its name, what it does, and the shape of the
/// arguments it takes.
#[derive(Debug, PartialEq, Eq)]
pub struct Tool {
    pub name: String,
    pub description: String,
    pub input_schema: Json,
}

/// The model of a [`Tool`].
pub struct ToolView {
    pub name: Seq<char>,
    pub description: Seq<char>,
    pub input_schema: JsonView,
}

impl View for Tool {
    type V = ToolView;

    open spec fn view(&self) -> ToolView {
        ToolView {
            name: self.name@,
            description: self.description@,
            input_schema: self.input_schema@,
        }
    }
}

impl ToolView {
    /// The wire form: the members `name`, `description` and `inputSchema`.
    pub open spec fn wire(self) -> JsonView {
        JsonView::Object(
            seq![
                ("name"@, JsonView::Text(self.name)),
                ("description"@, JsonView::Text(self.description)),
                ("inputSchema"@, self.input_schema),
            ],
        )
    }
}

impl Tool {
    /// Encodes the descriptor for the wire.
    pub fn to_json(&self) -> (doc: Json)
        ensures
            doc@ == self@.wire(),
    {
        let mut entries: Vec<(String, Json)> = Vec::new();
        put(&mut entries, "name", Json::text(self.name.as_str()));
        put(&mut entries, "description", Json::text(self.description.as_str()));
        put(&mut entries, "inputSchema", self.input_schema.clone());
        let doc = Json::object(entries);
        assert(doc@->Object_0 =~= self@.wire()->Object_0);
        doc
    }
}

impl Clone for Tool {
    fn clone(&self) -> (copy: Tool)
        ensures
            copy@ == self@,
    {
        Tool {
            name: self.name.clone(),
            description: self.description.clone(),
            input_schema: self.input_schema.clone(),
        }
    }
}

/// What a client sends to call a tool.
#[derive(Debug)]
pub struct ToolCallParams {
    pub name: String,
    pub arguments: Option<Json>,
}

/// The model of [`ToolCallParams`].
pub struct ToolCallParamsView {
    pub name: Seq<char>,
    pub arguments: Option<JsonView>,
}

impl View for ToolCallParams {
    type V = ToolCallParamsView;

    open spec fn view(&self) -> ToolCallParamsView {
        ToolCallParamsView { name: self.name@, arguments: owned_view(self.arguments) }
    }
}

impl ToolCallParamsView {
    /// Reads tool call parameters: `name` is a string, `arguments` an
    /// optional document.
    pub open spec fn decode(doc: JsonView) -> Option<ToolCallParamsView> {
        if !doc.fits(2) {
            None
        } else {
            match doc.member("name"@, 0) {
                Some(JsonView::Text(name)) => Some(
                    ToolCallParamsView { name, arguments: present(doc.member("arguments"@, 1)) },
                ),
                _ => None,
            }
        }
    }
}

/// The model of tool call parameters that may be absent.
pub open spec fn tool_call_view(params: Option<ToolCallParams>) -> Option<ToolCallParamsView> {
    match params {
        Some(p) => Some(p@),
        None => None,
    }
}

impl ToolCallParams {
    /// Reads tool call parameters; `None` where the document is not of their
    /// shape.
    pub fn from_json(doc: &Json) -> (params: Option<ToolCallParams>)
        ensures
            tool_call_view(params) == ToolCallParamsView::decode(doc@),
    {
        if !doc.fits(2) {
            return None;
        }
        let name = match doc.member("name", 0) {
            Some(field) => match field.as_str() {
                Some(s) => owned(s),
                None => {
                    return None;
                },
            },
            None => {
                return None;
            },
        };
        let arguments = match Json::optional(doc.member("arguments", 1)) {
            Some(a) => Some(a.clone()),
            None => None,
        };
        Some(ToolCallParams { name, arguments })
    }
}

/// One item of what a tool returns.
#[derive(Debug, PartialEq, Eq)]
pub enum ToolContent {
    Text { text: String },
}

/// The model of a [`ToolContent`].
pub enum ToolContentView {
    Text { text: Seq<char> },
}

impl View for ToolContent {
    type V = ToolContentView;

    open spec fn view(&self) -> ToolContentView {
        match self {
            ToolContent::Text { text } => ToolContentView::Text { text: text@ },
        }
    }
}

impl ToolContentView {
    /// The wire form: the member `type` names the kind of item, the other
    /// members are the item's own.
    pub open spec fn wire(self) -> JsonView {
        match self {
            ToolContentView::Text { text } => JsonView::Object(
                seq![("type"@, JsonView::Text("text"@)), ("text"@, JsonView::Text(text))],
            ),
        }
    }
}

impl ToolContent {
    /// Encodes the item for the wire.
    pub fn to_json(&self) -> (doc: Json)
        ensures
            doc@ == self@.wire(),
    {
        match self {
            ToolContent::Text { text } => {
                let mut entries: Vec<(String, Json)> = Vec::new();
                put(&mut entries, "type", Json::text("text"));
                put(&mut entries, "text", Json::text(text.as_str()));
                let doc = Json::object(entries);
                assert(doc@->Object_0 =~= self@.wire()->Object_0);
                doc
            },
        }
    }
}

/// What a tool returns: content items in order, and a flag by which a tool
/// that ran reports that what it did failed.
#[derive(Debug, PartialEq, Eq)]
pub struct ToolCallResult {
    pub content: Vec<ToolContent>,
    pub is_error: Option<bool>,
}

/// The model of a [`ToolCallResult`].
pub struct ToolCallResultView {
    pub content: Seq<ToolContentView>,
    pub is_error: Option<bool>,
}

impl View for ToolCallResult {
    type V = ToolCallResultView;

    open spec fn view(&self) -> ToolCallResultView {
        ToolCallResultView {
            content: Seq::new(self.content@.len(), |i: int| self.content@[i]@),
            is_error: self.is_error,
        }
    }
}

impl ToolCallResultView {
    /// The wire form: the member `content` holds the items in order; the
    /// member `isError` is there only where the flag is set.
    pub open spec fn wire(self) -> JsonView {
        let content = JsonView::Array(
            Seq::new(self.content.len(), |i: int| self.content[i].wire()),
        );
        match self.is_error {
            Some(flag) => JsonView::Object(
                seq![("content"@, content), ("isError"@, JsonView::Bool(flag))],
            ),
            None => JsonView::Object(seq![("content"@, content)]),
        }
    }
}

impl ToolCallResult {
    /// Encodes the result for the wire.
    pub fn to_json(&self) -> (doc: Json)
        ensures
            doc@ == self@.wire(),
    {
        let mut items: Vec<Json> = Vec::new();
        let mut i: usize = 0;
        while i < self.content.len()
            invariant
                i <= self.content.len(),
                items.len() == i,
                forall|k: int| 0 <= k < i ==> items@[k]@ == self.content@[k]@.wire(),
            decreases self.content.len() - i,
        {
            items.push(self.content[i].to_json());
            i += 1;
        }
        let content = Json::array(items);
        assert(content@->Array_0 =~= Seq::new(
            self@.content.len(),
            |i: int| self@.content[i].wire(),
        ));
        let mut entries: Vec<(String, Json)> = Vec::new();
        put(&mut entries, "content", content);
        match self.is_error {
            Some(flag) => {
                put(&mut entries, "isError", Json::Bool(flag));
            },
            None => {},
        }
        let doc = Json::object(entries);
        assert(doc@->Object_0 =~= self@.wire()->Object_0);
        doc
    }
}

// --- Tools List ---

/// The answer to `tools/list`.
#[derive(Debug, PartialEq, Eq)]
pub struct ToolsListResult {
    pub tools: Vec<Tool>,
}

/// The models of a list of descriptors, one by one.
pub open spec fn tool_views(tools: Seq<Tool>) -> Seq<ToolView> {
    Seq::new(tools.len(), |i: int| tools[i]@)
}

/// The model of a [`ToolsListResult`].
pub struct ToolsListResultView {
    pub tools: Seq<ToolView>,
}

impl View for ToolsListResult {
    type V = ToolsListResultView;

    open spec fn view(&self) -> ToolsListResultView {
        ToolsListResultView { tools: tool_views(self.tools@) }
    }
}

impl ToolsListResultView {
    /// The wire form: the member `tools` holds the descriptors in order.
    pub open spec fn wire(self) -> JsonView {
        JsonView::Object(
            seq![
                (
                    "tools"@,
                    JsonView::Array(Seq::new(self.tools.len(), |i: int| self.tools[i].wire())),
                ),
            ],
        )
    }
}

impl ToolsListResult {
    /// Encodes the listing for the wire.
    pub fn to_json(&self) -> (doc: Json)
        ensures
            doc@ == self@.wire(),
    {
        let mut items: Vec<Json> = Vec::new();
        let mut i: usize = 0;
        while i < self.tools.len()
            invariant
                i <= self.tools.len(),
                items.len() == i,
                forall|k: int| 0 <= k < i ==> items@[k]@ == self.tools@[k]@.wire(),
            decreases self.tools.len() - i,
        {
            items.push(self.tools[i].to_json());
            i += 1;
        }
        let listing = Json::array(items);
        assert(listing@->Array_0 =~= Seq::new(
            self@.tools.len(),
            |i: int| self@.tools[i].wire(),
        ));
        let mut entries: Vec<(String, Json)> = Vec::new();
        put(&mut entries, "tools", listing);
        let doc = Json::object(entries);
        assert(doc@->Object_0 =~= self@.wire()->Object_0);
        doc
    }
}

} // verus!
