//! The client side of the protocol: the session with one server.
//!
//! The session decides; whoever drives it does the waiting. Each operation
//! that needs an answer comes in two parts: the first registers the
//! caller's reply slot and gives the request to send, the second takes what
//! came of the wait and gives the operation's result.

use super::bridge::{definition_of, ToolDefinition, ToolDefinitionValue, VegaMcpTool};
use super::config::{McpClientConfig, TransportType};
use super::json::{optional_view, Json, JsonValue, ObjectBuilder};
use super::protocol::{McpError, McpMessage, Notification, Request, RequestValue, Response};
use super::transport::{addressee, call_params, hands_over, id_doc, is_pending, registered};
use super::transport::{released, routed};
use super::transport::{MessageRouter, RequestBuilder, StdioTransport, TransportError, TransportFactory};
use crate::keyed::{distinct_keys, get_key, key_list, keys_of, lemma_with_entry_keys};
use crate::keyed::{lemma_with_entry_viewed, put_key, viewed_map};
use crate::text::texts;
use vstd::prelude::*;
use vstd::string::StringExecFns;

verus! {

/// How long the answer to `initialize` and to the two list requests is
/// awaited, in seconds.
pub const HANDSHAKE_TIMEOUT_SECS: u64 = 10;

/// How long the answer to a tool call or a resource read is awaited, in
/// seconds.
pub const CALL_TIMEOUT_SECS: u64 = 30;

/// Where a connection stands.
#[derive(Debug, Clone, Copy, PartialEq, Eq, Structural)]
pub enum ConnectionState {
    Disconnected,
    Connecting,
    Initialized,
    Closing,
}

impl ConnectionState {
    /// Whether a connection in this state may pass into `next`. It is set
    /// up, used and closed in this order; closing may cut the setting up
    /// short.
    pub open spec fn leads_to(self, next: ConnectionState) -> bool {
        match (self, next) {
            (ConnectionState::Disconnected, ConnectionState::Connecting) => true,
            (ConnectionState::Connecting, ConnectionState::Initialized) => true,
            (ConnectionState::Connecting, ConnectionState::Closing) => true,
            (ConnectionState::Initialized, ConnectionState::Closing) => true,
            (ConnectionState::Closing, ConnectionState::Disconnected) => true,
            _ => false,
        }
    }

    /// The state after a handshake that succeeded: `Initialized` for a
    /// connection that was being set up, else the state as it was.
    pub open spec fn initialized(self) -> ConnectionState {
        if self == ConnectionState::Connecting {
            ConnectionState::Initialized
        } else {
            self
        }
    }

    /// The state after a handshake that succeeded.
    pub fn after_handshake(self) -> (r: ConnectionState)
        ensures
            r == self.initialized(),
            self.stays_or_leads_to(r),
    {
        match self {
            ConnectionState::Connecting => ConnectionState::Initialized,
            other => other,
        }
    }

    /// The state once closing has begun: `Closing`, or `Disconnected` for
    /// a connection that was never set up.
    pub open spec fn closing(self) -> ConnectionState {
        if self == ConnectionState::Disconnected {
            ConnectionState::Disconnected
        } else {
            ConnectionState::Closing
        }
    }

    /// Whether a change from this state to `next` is no change or a step
    /// that is allowed.
    pub open spec fn stays_or_leads_to(self, next: ConnectionState) -> bool {
        self == next || self.leads_to(next)
    }
}

/// What came of waiting for the answer to a request.
#[derive(Debug)]
pub enum Reply {
    /// The response arrived.
    Response(Response),
    /// The time allowed for the answer ran out.
    TimedOut,
    /// The reply slot was given up before an answer came, as happens when
    /// the connection is closed.
    Cancelled,
}

/// Why a client operation failed.
#[derive(Debug)]
pub enum ClientError {
    /// The transport could not be made or used.
    Transport(TransportError),
    /// The operation needs a connection that is not there.
    NotConnected,
    /// The session was connected before.
    AlreadyConnected,
    /// No answer came within the time allowed.
    Timeout,
    /// The wait was given up because the connection went away.
    Disconnected,
    /// The server answered with an error.
    Remote(McpError),
    /// The response held neither a result nor an error.
    EmptyResponse,
    /// The cache holds no tool of this name.
    ToolNotFound(String),
    /// All request identifiers are used up.
    IdsExhausted,
}

/// The operations of a client that wait for an answer.
#[derive(Debug, Clone, Copy, PartialEq, Eq, Structural)]
pub enum Operation {
    Initialize,
    ListTools,
    ListResources,
    CallTool,
    ReadResource,
}

impl Operation {
    /// What the answer to the operation is called.
    pub open spec fn answer(self) -> Seq<char> {
        match self {
            Operation::Initialize => "initialize response"@,
            Operation::ListTools => "tools list"@,
            Operation::ListResources => "resources list"@,
            Operation::CallTool => "tool call response"@,
            Operation::ReadResource => "resource read response"@,
        }
    }

    /// What the request of the operation is called.
    pub open spec fn request(self) -> Seq<char> {
        match self {
            Operation::Initialize => "Initialize"@,
            Operation::ListTools => "Tools list"@,
            Operation::ListResources => "Resources list"@,
            Operation::CallTool => "Tool call"@,
            Operation::ReadResource => "Resource read"@,
        }
    }
}

impl Operation {
    /// The step of setting up a connection that follows this one, given
    /// whether this one failed: after the handshake the tools are listed,
    /// then the resources, and a list that fails does not stop the setting
    /// up; a handshake that fails does.
    pub open spec fn spec_followed_by(self, failed: bool) -> Option<Operation> {
        match self {
            Operation::Initialize => if failed {
                None
            } else {
                Some(Operation::ListTools)
            },
            Operation::ListTools => Some(Operation::ListResources),
            _ => None,
        }
    }

    /// The step of setting up a connection that follows this one, given
    /// whether this one failed.
    pub fn followed_by(self, failed: bool) -> (next: Option<Operation>)
        ensures
            next == self.spec_followed_by(failed),
    {
        match self {
            Operation::Initialize => if failed {
                None
            } else {
                Some(Operation::ListTools)
            },
            Operation::ListTools => Some(Operation::ListResources),
            _ => None,
        }
    }
}

impl ClientError {
    /// The error in words, for the operation in which it came up.
    pub open spec fn spec_message(self, operation: Operation) -> Seq<char> {
        match self {
            ClientError::Transport(e) => e.spec_message(),
            ClientError::NotConnected => "No transport available"@,
            ClientError::AlreadyConnected => "Already connected"@,
            ClientError::Timeout => "Timeout waiting for "@ + operation.answer(),
            ClientError::Disconnected => operation.request() + " request cancelled"@,
            ClientError::Remote(e) => operation.request() + " failed: "@ + e.message@,
            ClientError::EmptyResponse => "No result or error in response"@,
            ClientError::ToolNotFound(name) => "Tool '"@ + name@ + "' not found"@,
            ClientError::IdsExhausted => "No request identifier is left"@,
        }
    }

    /// The error in words, for the operation in which it came up.
    pub fn message(&self, operation: Operation) -> (r: String)
        ensures
            r@ == self.spec_message(operation),
    {
        let request = match operation {
            Operation::Initialize => "Initialize",
            Operation::ListTools => "Tools list",
            Operation::ListResources => "Resources list",
            Operation::CallTool => "Tool call",
            Operation::ReadResource => "Resource read",
        };
        match self {
            ClientError::Transport(e) => e.message(),
            ClientError::NotConnected => "No transport available".to_string(),
            ClientError::AlreadyConnected => "Already connected".to_string(),
            ClientError::Timeout => {
                let mut text = "Timeout waiting for ".to_string();
                text.append(
                    match operation {
                        Operation::Initialize => "initialize response",
                        Operation::ListTools => "tools list",
                        Operation::ListResources => "resources list",
                        Operation::CallTool => "tool call response",
                        Operation::ReadResource => "resource read response",
                    },
                );
                text
            },
            ClientError::Disconnected => {
                let mut text = request.to_string();
                text.append(" request cancelled");
                text
            },
            ClientError::Remote(e) => {
                let mut text = request.to_string();
                text.append(" failed: ");
                text.append(e.message.as_str());
                text
            },
            ClientError::EmptyResponse => "No result or error in response".to_string(),
            ClientError::ToolNotFound(name) => {
                let mut text = "Tool '".to_string();
                text.append(name.as_str());
                text.append("' not found");
                text
            },
            ClientError::IdsExhausted => "No request identifier is left".to_string(),
        }
    }
}

/// What the client does with a message that came in.
#[derive(Debug)]
pub enum Dispatch<S> {
    /// Fulfil this slot with this response.
    Deliver(S, Response),
    /// A response that nobody waits for: drop it.
    Discard(Response),
    /// A notification: hand it to the log.
    Notice(Notification),
    /// A request from the server, which this client does not serve.
    Unserved(Request),
}

/// The identity and capabilities that the client declares in the
/// handshake.
pub open spec fn client_info_doc() -> JsonValue {
    JsonValue::Object(
        seq![
            ("protocolVersion"@, JsonValue::Text("2025-06-18"@)),
            (
                "capabilities"@,
                JsonValue::Object(
                    seq![
                        (
                            "tools"@,
                            JsonValue::Object(seq![("list_changed"@, JsonValue::Bool(true))]),
                        ),
                        (
                            "resources"@,
                            JsonValue::Object(
                                seq![
                                    ("list_changed"@, JsonValue::Bool(true)),
                                    ("subscribe"@, JsonValue::Bool(false)),
                                ],
                            ),
                        ),
                    ],
                ),
            ),
            (
                "clientInfo"@,
                JsonValue::Object(
                    seq![
                        ("name"@, JsonValue::Text("vega-mcp-client"@)),
                        ("version"@, JsonValue::Text("0.1.0"@)),
                    ],
                ),
            ),
        ],
    )
}

/// The identity and capabilities that the client declares in the
/// handshake.
pub fn client_info() -> (r: Json)
    ensures
        r@ == client_info_doc(),
{
    let mut tools = ObjectBuilder::new();
    tools.put("list_changed", Json::Bool(true));
    assert(tools@ =~= seq![("list_changed"@, JsonValue::Bool(true))]);
    let mut resources = ObjectBuilder::new();
    resources.put("list_changed", Json::Bool(true));
    resources.put("subscribe", Json::Bool(false));
    assert(resources@ =~= seq![
        ("list_changed"@, JsonValue::Bool(true)),
        ("subscribe"@, JsonValue::Bool(false)),
    ]);
    let mut capabilities = ObjectBuilder::new();
    capabilities.put("tools", tools.build());
    capabilities.put("resources", resources.build());
    assert(capabilities@ =~= client_info_doc()->Object_0[1].1->Object_0);
    let mut identity = ObjectBuilder::new();
    identity.put("name", Json::text("vega-mcp-client"));
    identity.put("version", Json::text("0.1.0"));
    assert(identity@ =~= seq![
        ("name"@, JsonValue::Text("vega-mcp-client"@)),
        ("version"@, JsonValue::Text("0.1.0"@)),
    ]);
    let mut info = ObjectBuilder::new();
    info.put("protocolVersion", Json::text("2025-06-18"));
    info.put("capabilities", capabilities.build());
    info.put("clientInfo", identity.build());
    assert(info@ =~= client_info_doc()->Object_0);
    info.build()
}

/// The documents that a `tools/list` result lists.
pub open spec fn tool_docs(result: JsonValue) -> Option<Seq<JsonValue>> {
    match result.member("tools"@) {
        Some(t) => t.elements(),
        None => None,
    }
}

/// The documents that a `resources/list` result lists.
pub open spec fn resource_docs(result: JsonValue) -> Option<Seq<JsonValue>> {
    match result.member("resources"@) {
        Some(t) => t.elements(),
        None => None,
    }
}

/// The tools that a list of documents defines, by name. A document that
/// holds no definition is passed over; of two definitions with one name the
/// later stays.
pub open spec fn listed_tools(docs: Seq<JsonValue>) -> Map<Seq<char>, ToolDefinitionValue>
    decreases docs.len(),
{
    if docs.len() == 0 {
        Map::empty()
    } else {
        let before = listed_tools(docs.drop_last());
        match definition_of(docs.last()) {
            Some(d) => before.insert(d.name, d),
            None => before,
        }
    }
}

/// The names of the tools that a list of documents defines, each once, in
/// the order in which they first occur.
pub open spec fn listed_names(docs: Seq<JsonValue>) -> Seq<Seq<char>>
    decreases docs.len(),
{
    if docs.len() == 0 {
        Seq::empty()
    } else {
        let before = listed_names(docs.drop_last());
        match definition_of(docs.last()) {
            Some(d) => if before.contains(d.name) {
                before
            } else {
                before.push(d.name)
            },
            None => before,
        }
    }
}

/// The addresses of the resources that a list of documents describes, each
/// once, in the order in which they first occur.
pub open spec fn listed_uris(docs: Seq<JsonValue>) -> Seq<Seq<char>>
    decreases docs.len(),
{
    if docs.len() == 0 {
        Seq::empty()
    } else {
        let before = listed_uris(docs.drop_last());
        match resource_uri(docs.last()) {
            Some(uri) => if before.contains(uri) {
                before
            } else {
                before.push(uri)
            },
            None => before,
        }
    }
}

/// The address of a resource document: its string member `uri`.
pub open spec fn resource_uri(doc: JsonValue) -> Option<Seq<char>> {
    match doc.member("uri"@) {
        Some(u) => u.text(),
        None => None,
    }
}

/// The resources that a list of documents describes, by address. A
/// document without an address is passed over; of two with one address the
/// later stays.
pub open spec fn listed_resources(docs: Seq<JsonValue>) -> Map<Seq<char>, JsonValue>
    decreases docs.len(),
{
    if docs.len() == 0 {
        Map::empty()
    } else {
        let before = listed_resources(docs.drop_last());
        match resource_uri(docs.last()) {
            Some(uri) => before.insert(uri, docs.last()),
            None => before,
        }
    }
}

/// What a finished call gives its caller: the result, or why there is
/// none.
pub open spec fn call_outcome(reply: Reply) -> Result<JsonValue, ClientFailure> {
    match reply {
        Reply::Response(r) => match (r.result, r.error) {
            (Some(doc), _) => Ok(doc@),
            (None, Some(e)) => Err(ClientFailure::Remote(e@)),
            (None, None) => Err(ClientFailure::EmptyResponse),
        },
        Reply::TimedOut => Err(ClientFailure::Timeout),
        Reply::Cancelled => Err(ClientFailure::Disconnected),
    }
}

/// The kinds of failure that a wait can end in.
pub ghost enum ClientFailure {
    Timeout,
    Disconnected,
    Remote(super::protocol::McpErrorValue),
    EmptyResponse,
}

impl ClientError {
    /// The failure that the error stands for, where it comes from a wait.
    pub open spec fn failure(self) -> Option<ClientFailure> {
        match self {
            ClientError::Timeout => Some(ClientFailure::Timeout),
            ClientError::Disconnected => Some(ClientFailure::Disconnected),
            ClientError::Remote(e) => Some(ClientFailure::Remote(e@)),
            ClientError::EmptyResponse => Some(ClientFailure::EmptyResponse),
            _ => None,
        }
    }
}

/// The pending table after a wait for request `id` ended: a wait that got
/// its response finds the entry gone already; one that ran out of time or
/// was given up takes its entry along.
pub open spec fn settled<S>(entries: Map<u64, S>, id: u64, reply: Reply) -> Map<u64, S> {
    match reply {
        Reply::Response(_) => entries,
        _ => released(entries, id),
    }
}

/// Reads the tools that a list of documents defines.
pub fn load_tools(docs: &Vec<Json>) -> (cache: Vec<(String, ToolDefinition)>)
    ensures
        distinct_keys(cache@),
        viewed_map(cache@) == listed_tools(super::json::values_of(docs@)),
        keys_of(cache@) == listed_names(super::json::values_of(docs@)),
{
    let mut cache: Vec<(String, ToolDefinition)> = Vec::new();
    let ghost values = super::json::values_of(docs@);
    let mut i: usize = 0;
    assert(values.subrange(0, 0) =~= Seq::<JsonValue>::empty());
    assert(viewed_map(cache@) =~= Map::<Seq<char>, ToolDefinitionValue>::empty());
    assert(keys_of(cache@) =~= Seq::<Seq<char>>::empty());
    while i < docs.len()
        invariant
            i <= docs.len(),
            values == super::json::values_of(docs@),
            distinct_keys(cache@),
            viewed_map(cache@) == listed_tools(values.subrange(0, i as int)),
            keys_of(cache@) == listed_names(values.subrange(0, i as int)),
        decreases docs.len() - i,
    {
        let ghost upto = values.subrange(0, i + 1);
        assert(upto.drop_last() =~= values.subrange(0, i as int));
        assert(upto.last() == docs@[i as int]@);
        match ToolDefinition::from_json(&docs[i]) {
            Some(definition) => {
                let name = definition.name.clone();
                proof {
                    lemma_with_entry_viewed(cache@, name, definition);
                    lemma_with_entry_keys(cache@, name, definition);
                }
                let _ = put_key(&mut cache, name, definition);
            },
            None => {},
        }
        i += 1;
    }
    assert(values.subrange(0, i as int) =~= values);
    cache
}

/// Reads the resources that a list of documents describes.
pub fn load_resources(docs: &Vec<Json>) -> (cache: Vec<(String, Json)>)
    ensures
        distinct_keys(cache@),
        viewed_map(cache@) == listed_resources(super::json::values_of(docs@)),
        keys_of(cache@) == listed_uris(super::json::values_of(docs@)),
{
    let mut cache: Vec<(String, Json)> = Vec::new();
    let ghost values = super::json::values_of(docs@);
    let mut i: usize = 0;
    assert(values.subrange(0, 0) =~= Seq::<JsonValue>::empty());
    assert(viewed_map(cache@) =~= Map::<Seq<char>, JsonValue>::empty());
    assert(keys_of(cache@) =~= Seq::<Seq<char>>::empty());
    while i < docs.len()
        invariant
            i <= docs.len(),
            values == super::json::values_of(docs@),
            distinct_keys(cache@),
            viewed_map(cache@) == listed_resources(values.subrange(0, i as int)),
            keys_of(cache@) == listed_uris(values.subrange(0, i as int)),
        decreases docs.len() - i,
    {
        let ghost upto = values.subrange(0, i + 1);
        assert(upto.drop_last() =~= values.subrange(0, i as int));
        assert(upto.last() == docs@[i as int]@);
        let uri = match docs[i].get("uri") {
            Some(u) => u.as_str(),
            None => None,
        };
        match uri {
            Some(uri) => {
                let key = uri.to_string();
                let doc = docs[i].clone();
                proof {
                    lemma_with_entry_viewed(cache@, key, doc);
                    lemma_with_entry_keys(cache@, key, doc);
                }
                let _ = put_key(&mut cache, key, doc);
            },
            None => {},
        }
        i += 1;
    }
    assert(values.subrange(0, i as int) =~= values);
    cache
}

/// The session of a client with one server: the router, the cached
/// catalog of the server's tools and resources, and where the connection
/// stands.
#[derive(Debug)]
pub struct McpClient<S> {
    config: McpClientConfig,
    transport: Option<StdioTransport>,
    router: MessageRouter<S>,
    tools: Vec<(String, ToolDefinition)>,
    resources: Vec<(String, Json)>,
    state: ConnectionState,
    server_info: Option<Json>,
}

impl<S> McpClient<S> {
    /// The requests that await a reply, each with its slot.
    pub closed spec fn pending(&self) -> Map<u64, S> {
        self.router.pending()
    }

    /// The identifier of the next request.
    pub closed spec fn upcoming(&self) -> u64 {
        self.router.upcoming()
    }

    /// The configuration that the session was made with.
    pub closed spec fn configuration(&self) -> McpClientConfig {
        self.config
    }

    /// Where the connection stands.
    pub closed spec fn state(&self) -> ConnectionState {
        self.state
    }

    /// Whether the session still has its transport.
    pub closed spec fn has_transport(&self) -> bool {
        self.transport is Some
    }

    /// Whether the transport is there and connected.
    pub closed spec fn wired(&self) -> bool {
        self.transport matches Some(t) && t.connected()
    }

    /// The cached tools of the server, in the order in which their names
    /// were first listed.
    pub closed spec fn cached_tools(&self) -> Seq<(String, ToolDefinition)> {
        self.tools@
    }

    /// The cached tools of the server, by name.
    pub open spec fn tool_map(&self) -> Map<Seq<char>, ToolDefinitionValue> {
        viewed_map(self.cached_tools())
    }

    /// The cached resources of the server, in the order in which their
    /// addresses were first listed.
    pub closed spec fn cached_resources(&self) -> Seq<(String, Json)> {
        self.resources@
    }

    /// The cached resources of the server, by address.
    pub open spec fn resource_map(&self) -> Map<Seq<char>, JsonValue> {
        viewed_map(self.cached_resources())
    }

    /// What the server declared in the handshake.
    pub closed spec fn server_info(&self) -> Option<JsonValue> {
        optional_view(self.server_info)
    }

    /// Zero is never handed out as an identifier, and no name is cached
    /// twice.
    pub open spec fn wf(&self) -> bool {
        &&& self.upcoming() >= 1
        &&& distinct_keys(self.cached_tools())
        &&& distinct_keys(self.cached_resources())
    }

    /// Whether requests can be sent: the transport is connected and the
    /// connection is being set up or is in use.
    pub open spec fn connected(&self) -> bool {
        self.wired() && (self.state() == ConnectionState::Connecting || self.state()
            == ConnectionState::Initialized)
    }

    /// The session before a change that leaves the caches, the handshake
    /// result and the connection as they are.
    pub open spec fn same_session(&self, before: &Self) -> bool {
        &&& self.state() == before.state()
        &&& self.configuration() == before.configuration()
        &&& self.has_transport() == before.has_transport()
        &&& self.wired() == before.wired()
        &&& self.cached_tools() == before.cached_tools()
        &&& self.cached_resources() == before.cached_resources()
        &&& self.server_info() == before.server_info()
    }

    /// Whether the session is as `new` makes it for a configuration:
    /// disconnected, with nothing pending, the first identifier to come, and
    /// empty caches.
    pub open spec fn fresh(&self, config: McpClientConfig) -> bool {
        &&& self.wf()
        &&& self.configuration() == config
        &&& self.state() == ConnectionState::Disconnected
        &&& self.has_transport()
        &&& !self.wired()
        &&& self.pending() == Map::<u64, S>::empty()
        &&& self.upcoming() == 1
        &&& self.cached_tools().len() == 0
        &&& self.cached_resources().len() == 0
        &&& self.server_info().is_none()
    }

    /// A session for the configured server, not connected yet. Only the
    /// transport over standard streams can be had.
    pub fn new(config: McpClientConfig) -> (r: Result<McpClient<S>, ClientError>)
        ensures
            match config.transport.transport_type {
                TransportType::Stdio => r matches Ok(c) && c.fresh(config),
                TransportType::Sse => r matches Err(ClientError::Transport(e)) && e
                    == TransportError::SseNotImplemented,
                TransportType::Http => r matches Err(ClientError::Transport(e)) && e
                    == TransportError::HttpNotImplemented,
            },
    {
        match TransportFactory::create(config.transport.clone()) {
            Ok(transport) => Ok(
                McpClient {
                    config,
                    transport: Some(transport),
                    router: MessageRouter::new(),
                    tools: Vec::new(),
                    resources: Vec::new(),
                    state: ConnectionState::Disconnected,
                    server_info: None,
                },
            ),
            Err(e) => Err(ClientError::Transport(e)),
        }
    }

    /// The configuration of the session.
    pub fn config(&self) -> (r: &McpClientConfig)
        ensures
            *r == self.configuration(),
    {
        &self.config
    }

    /// Records that the server process was started and its streams wired:
    /// the session passes from `Disconnected` to `Connecting`. A session
    /// connects once; it fails where it was connected before or was
    /// closed.
    pub fn connect(&mut self) -> (r: Result<(), ClientError>)
        requires
            old(self).wf(),
        ensures
            final(self).wf(),
            final(self).pending() == old(self).pending(),
            final(self).upcoming() == old(self).upcoming(),
            final(self).cached_tools() == old(self).cached_tools(),
            final(self).cached_resources() == old(self).cached_resources(),
            final(self).server_info() == old(self).server_info(),
            old(self).state().stays_or_leads_to(final(self).state()),
            match r {
                Ok(_) => {
                    &&& old(self).state() == ConnectionState::Disconnected
                    &&& final(self).state() == ConnectionState::Connecting
                    &&& final(self).connected()
                },
                Err(e) => {
                    &&& final(self).state() == old(self).state()
                    &&& final(self).wired() == old(self).wired()
                    &&& if old(self).state() != ConnectionState::Disconnected {
                        e is AlreadyConnected
                    } else {
                        e is NotConnected && !old(self).has_transport()
                    }
                },
            },
    {
        if self.state != ConnectionState::Disconnected {
            return Err(ClientError::AlreadyConnected);
        }
        match &mut self.transport {
            Some(transport) => {
                transport.mark_connected();
                self.state = ConnectionState::Connecting;
                Ok(())
            },
            None => Err(ClientError::NotConnected),
        }
    }

    /// Whether requests can be sent.
    pub fn is_connected(&self) -> (r: bool)
        ensures
            r == self.connected(),
    {
        let wired = match &self.transport {
            Some(t) => t.is_connected(),
            None => false,
        };
        wired && (self.state == ConnectionState::Connecting || self.state
            == ConnectionState::Initialized)
    }

    /// Mints the identifier of a new request and registers the caller's
    /// slot for it.
    fn open_request(&mut self, slot: S) -> (r: Result<u64, ClientError>)
        requires
            old(self).wf(),
        ensures
            final(self).wf(),
            final(self).same_session(old(self)),
            match r {
                Ok(id) => old(self).connected() && id == old(self).upcoming() && id >= 1
                    && final(self).upcoming() == id + 1 && final(self).pending() == registered(
                    old(self).pending(),
                    id,
                    slot,
                ),
                Err(e) => final(self).upcoming() == old(self).upcoming() && final(self).pending()
                    == old(self).pending() && if !old(self).connected() {
                    e is NotConnected
                } else {
                    e is IdsExhausted && old(self).upcoming() == u64::MAX
                },
            },
    {
        if !self.is_connected() {
            return Err(ClientError::NotConnected);
        }
        if !self.router.can_mint() {
            return Err(ClientError::IdsExhausted);
        }
        let id = self.router.next_id();
        let _ = self.router.register_request(id, slot);
        Ok(id)
    }

    /// Whether `r` is the outcome of opening a request that is built by
    /// `request_for` from its identifier: on success the request carries
    /// the next identifier and the slot is registered for it; on failure
    /// nothing changed.
    pub open spec fn opened(
        &self,
        before: &Self,
        slot: S,
        r: Result<Request, ClientError>,
        method: Seq<char>,
        params: Option<JsonValue>,
    ) -> bool {
        &&& self.same_session(before)
        &&& match r {
            Ok(request) => {
                &&& before.connected()
                &&& 1 <= before.upcoming() < u64::MAX
                &&& request@ == (RequestValue { id: id_doc(before.upcoming()), method, params })
                &&& self.upcoming() == before.upcoming() + 1
                &&& self.pending() == registered(before.pending(), before.upcoming(), slot)
            },
            Err(e) => {
                &&& self.upcoming() == before.upcoming()
                &&& self.pending() == before.pending()
                &&& if !before.connected() {
                    e is NotConnected
                } else {
                    e is IdsExhausted && before.upcoming() == u64::MAX
                }
            },
        }
    }

    /// Opens the handshake: the `initialize` request with the client's
    /// capabilities and identity.
    pub fn initialize(&mut self, slot: S) -> (r: Result<Request, ClientError>)
        requires
            old(self).wf(),
        ensures
            final(self).wf(),
            final(self).opened(old(self), slot, r, "initialize"@, Some(client_info_doc())),
    {
        match self.open_request(slot) {
            Ok(id) => Ok(RequestBuilder::initialize(id, client_info())),
            Err(e) => Err(e),
        }
    }

    /// Opens a refresh of the tool cache: a `tools/list` request.
    pub fn refresh_tools(&mut self, slot: S) -> (r: Result<Request, ClientError>)
        requires
            old(self).wf(),
        ensures
            final(self).wf(),
            final(self).opened(old(self), slot, r, "tools/list"@, None),
    {
        match self.open_request(slot) {
            Ok(id) => Ok(RequestBuilder::list_tools(id)),
            Err(e) => Err(e),
        }
    }

    /// Opens a refresh of the resource cache: a `resources/list` request.
    pub fn refresh_resources(&mut self, slot: S) -> (r: Result<Request, ClientError>)
        requires
            old(self).wf(),
        ensures
            final(self).wf(),
            final(self).opened(old(self), slot, r, "resources/list"@, None),
    {
        match self.open_request(slot) {
            Ok(id) => Ok(RequestBuilder::list_resources(id)),
            Err(e) => Err(e),
        }
    }

    /// Opens a call of the server's tool `name`: a `tools/call` request.
    pub fn call_tool(&mut self, name: &str, arguments: Option<Json>, slot: S) -> (r: Result<
        Request,
        ClientError,
    >)
        requires
            old(self).wf(),
        ensures
            final(self).wf(),
            final(self).opened(
                old(self),
                slot,
                r,
                "tools/call"@,
                Some(call_params(name@, optional_view(arguments))),
            ),
    {
        match self.open_request(slot) {
            Ok(id) => Ok(RequestBuilder::call_tool(id, name, arguments)),
            Err(e) => Err(e),
        }
    }

    /// Opens a read of the server's resource at `uri`: a `resources/read`
    /// request.
    pub fn read_resource(&mut self, uri: &str, slot: S) -> (r: Result<Request, ClientError>)
        requires
            old(self).wf(),
        ensures
            final(self).wf(),
            final(self).opened(
                old(self),
                slot,
                r,
                "resources/read"@,
                Some(JsonValue::Object(seq![("uri"@, JsonValue::Text(uri@))])),
            ),
    {
        match self.open_request(slot) {
            Ok(id) => Ok(RequestBuilder::read_resource(id, uri)),
            Err(e) => Err(e),
        }
    }

    /// Ends the wait for request `id`: a wait that did not get its
    /// response takes its entry out of the pending table, so that a late
    /// response finds nothing to fulfil.
    fn settle(&mut self, id: u64, reply: &Reply)
        requires
            old(self).wf(),
        ensures
            final(self).wf(),
            final(self).same_session(old(self)),
            final(self).upcoming() == old(self).upcoming(),
            final(self).pending() == settled(old(self).pending(), id, *reply),
    {
        match reply {
            Reply::Response(_) => {},
            _ => {
                let _ = self.router.release(id);
            },
        }
    }

    /// Turns what came of a wait into the result of the operation.
    fn outcome(reply: Reply) -> (r: Result<Json, ClientError>)
        ensures
            match r {
                Ok(doc) => call_outcome(reply) == Ok::<JsonValue, ClientFailure>(doc@),
                Err(e) => e.failure() matches Some(f) && call_outcome(reply) == Err::<
                    JsonValue,
                    ClientFailure,
                >(f),
            },
    {
        match reply {
            Reply::Response(response) => match (response.result, response.error) {
                (Some(doc), _) => Ok(doc),
                (None, Some(e)) => Err(ClientError::Remote(e)),
                (None, None) => Err(ClientError::EmptyResponse),
            },
            Reply::TimedOut => Err(ClientError::Timeout),
            Reply::Cancelled => Err(ClientError::Disconnected),
        }
    }

    /// Ends a tool call or a resource read: the result that the server
    /// gave, or the reason why there is none. Running out of time ends the
    /// wait only; the server is not told.
    pub fn complete_call(&mut self, id: u64, reply: Reply) -> (r: Result<Json, ClientError>)
        requires
            old(self).wf(),
        ensures
            final(self).wf(),
            final(self).same_session(old(self)),
            final(self).upcoming() == old(self).upcoming(),
            final(self).pending() == settled(old(self).pending(), id, reply),
            !(reply is Response) ==> !is_pending(final(self).pending(), id),
            match r {
                Ok(doc) => call_outcome(reply) == Ok::<JsonValue, ClientFailure>(doc@),
                Err(e) => e.failure() matches Some(f) && call_outcome(reply) == Err::<
                    JsonValue,
                    ClientFailure,
                >(f),
            },
    {
        self.settle(id, &reply);
        Self::outcome(reply)
    }

    /// Ends the handshake. With a result the session keeps what the server
    /// declared and, where it was connecting, is initialized; a response
    /// without result and error initializes it too. An error, a timeout or
    /// a lost connection fails the handshake and leaves the session as it
    /// was.
    pub fn complete_initialize(&mut self, id: u64, reply: Reply) -> (r: Result<(), ClientError>)
        requires
            old(self).wf(),
        ensures
            final(self).wf(),
            final(self).upcoming() == old(self).upcoming(),
            final(self).pending() == settled(old(self).pending(), id, reply),
            final(self).wired() == old(self).wired(),
            final(self).cached_tools() == old(self).cached_tools(),
            final(self).cached_resources() == old(self).cached_resources(),
            old(self).state().stays_or_leads_to(final(self).state()),
            match call_outcome(reply) {
                Ok(doc) => r is Ok && final(self).state() == old(self).state().initialized()
                    && final(self).server_info() == Some(doc),
                Err(ClientFailure::EmptyResponse) => {
                    &&& r is Ok
                    &&& final(self).state() == old(self).state().initialized()
                    &&& final(self).server_info() == old(self).server_info()
                },
                Err(f) => r matches Err(e) && e.failure() == Some(f) && final(self).same_session(
                    old(self),
                ),
            },
    {
        self.settle(id, &reply);
        match Self::outcome(reply) {
            Ok(doc) => {
                self.server_info = Some(doc);
                self.state = self.state.after_handshake();
                Ok(())
            },
            Err(ClientError::EmptyResponse) => {
                self.state = self.state.after_handshake();
                Ok(())
            },
            Err(e) => Err(e),
        }
    }

    /// Ends a refresh of the tool cache. A result that lists tools
    /// replaces the cache, and the answer is `true`. Any other response
    /// leaves the cache as it is and the answer is `false`: a warning, no
    /// failure of the connection.
    pub fn complete_refresh_tools(&mut self, id: u64, reply: Reply) -> (r: Result<
        bool,
        ClientError,
    >)
        requires
            old(self).wf(),
        ensures
            final(self).wf(),
            final(self).upcoming() == old(self).upcoming(),
            final(self).pending() == settled(old(self).pending(), id, reply),
            final(self).state() == old(self).state(),
            final(self).wired() == old(self).wired(),
            final(self).cached_resources() == old(self).cached_resources(),
            final(self).server_info() == old(self).server_info(),
            match call_outcome(reply) {
                Ok(doc) => match tool_docs(doc) {
                    Some(docs) => r == Ok::<bool, ClientError>(true) && final(self).tool_map()
                        == listed_tools(docs) && keys_of(final(self).cached_tools())
                        == listed_names(docs),
                    None => r == Ok::<bool, ClientError>(false) && final(self).cached_tools()
                        == old(self).cached_tools(),
                },
                Err(ClientFailure::Remote(_)) | Err(ClientFailure::EmptyResponse) => r == Ok::<
                    bool,
                    ClientError,
                >(false) && final(self).cached_tools() == old(self).cached_tools(),
                Err(f) => r matches Err(e) && e.failure() == Some(f) && final(self).cached_tools()
                    == old(self).cached_tools(),
            },
    {
        self.settle(id, &reply);
        match Self::outcome(reply) {
            Ok(doc) => {
                let listed = match doc.get("tools") {
                    Some(t) => t.as_array(),
                    None => None,
                };
                match listed {
                    Some(docs) => {
                        proof {
                            super::json::lemma_array_view(*docs);
                        }
                        self.tools = load_tools(docs);
                        Ok(true)
                    },
                    None => Ok(false),
                }
            },
            Err(ClientError::Remote(_)) => Ok(false),
            Err(ClientError::EmptyResponse) => Ok(false),
            Err(e) => Err(e),
        }
    }

    /// Ends a refresh of the resource cache, in the way of
    /// `complete_refresh_tools`.
    pub fn complete_refresh_resources(&mut self, id: u64, reply: Reply) -> (r: Result<
        bool,
        ClientError,
    >)
        requires
            old(self).wf(),
        ensures
            final(self).wf(),
            final(self).upcoming() == old(self).upcoming(),
            final(self).pending() == settled(old(self).pending(), id, reply),
            final(self).state() == old(self).state(),
            final(self).wired() == old(self).wired(),
            final(self).cached_tools() == old(self).cached_tools(),
            final(self).server_info() == old(self).server_info(),
            match call_outcome(reply) {
                Ok(doc) => match resource_docs(doc) {
                    Some(docs) => r == Ok::<bool, ClientError>(true) && final(self).resource_map()
                        == listed_resources(docs) && keys_of(final(self).cached_resources())
                        == listed_uris(docs),
                    None => r == Ok::<bool, ClientError>(false) && final(self).cached_resources()
                        == old(self).cached_resources(),
                },
                Err(ClientFailure::Remote(_)) | Err(ClientFailure::EmptyResponse) => r == Ok::<
                    bool,
                    ClientError,
                >(false) && final(self).cached_resources() == old(self).cached_resources(),
                Err(f) => r matches Err(e) && e.failure() == Some(f) && final(self).cached_resources() == old(self).cached_resources(),
            },
    {
        self.settle(id, &reply);
        match Self::outcome(reply) {
            Ok(doc) => {
                let listed = match doc.get("resources") {
                    Some(t) => t.as_array(),
                    None => None,
                };
                match listed {
                    Some(docs) => {
                        proof {
                            super::json::lemma_array_view(*docs);
                        }
                        self.resources = load_resources(docs);
                        Ok(true)
                    },
                    None => Ok(false),
                }
            },
            Err(ClientError::Remote(_)) => Ok(false),
            Err(ClientError::EmptyResponse) => Ok(false),
            Err(e) => Err(e),
        }
    }

    /// Takes a message that came in. A response goes to the slot that
    /// waits for its `id` and is discarded where none does; the order in
    /// which responses arrive plays no part.
    pub fn dispatch(&mut self, message: McpMessage) -> (r: Dispatch<S>)
        requires
            old(self).wf(),
        ensures
            final(self).wf(),
            final(self).same_session(old(self)),
            final(self).upcoming() == old(self).upcoming(),
            match message {
                McpMessage::Response(response) => final(self).pending() == routed(
                    old(self).pending(),
                    response.id@,
                ) && match addressee(old(self).pending(), response.id@) {
                    Some(slot) => r == Dispatch::Deliver(slot, response),
                    None => r == Dispatch::<S>::Discard(response),
                },
                McpMessage::Notification(n) => final(self).pending() == old(self).pending() && r
                    == Dispatch::<S>::Notice(n),
                McpMessage::Request(q) => final(self).pending() == old(self).pending() && r
                    == Dispatch::<S>::Unserved(q),
            },
    {
        match message {
            McpMessage::Response(response) => {
                match response.id.as_u64() {
                    Some(id) => match self.router.release(id) {
                        Some(slot) => Dispatch::Deliver(slot, response),
                        None => Dispatch::Discard(response),
                    },
                    None => Dispatch::Discard(response),
                }
            },
            McpMessage::Notification(n) => Dispatch::Notice(n),
            McpMessage::Request(q) => Dispatch::Unserved(q),
        }
    }

    /// Begins to close the session. Every request that still awaits its
    /// reply is handed back with its slot, so that each waiter is told that
    /// the connection is gone and none waits for ever.
    /// Nothing is pending afterwards, and no request can be sent. The
    /// session is `Closing` until `closed` is called.
    pub fn disconnect(&mut self) -> (waiters: Vec<(u64, S)>)
        requires
            old(self).wf(),
        ensures
            final(self).wf(),
            hands_over(waiters@, old(self).pending()),
            final(self).pending() == Map::<u64, S>::empty(),
            final(self).upcoming() == old(self).upcoming(),
            final(self).state() == old(self).state().closing(),
            old(self).state().stays_or_leads_to(final(self).state()),
            !final(self).has_transport(),
            !final(self).wired(),
            !final(self).connected(),
            final(self).cached_tools() == old(self).cached_tools(),
            final(self).cached_resources() == old(self).cached_resources(),
            final(self).server_info() == old(self).server_info(),
    {
        self.transport = None;
        if self.state != ConnectionState::Disconnected {
            self.state = ConnectionState::Closing;
        }
        self.router.drain()
    }

    /// Takes note that the server's output has ended, which is how the
    /// exit of its process shows: the session begins to close, as by
    /// `disconnect`, and every waiter is handed back to be told.
    pub fn end_of_stream(&mut self) -> (waiters: Vec<(u64, S)>)
        requires
            old(self).wf(),
        ensures
            final(self).wf(),
            hands_over(waiters@, old(self).pending()),
            final(self).pending() == Map::<u64, S>::empty(),
            final(self).upcoming() == old(self).upcoming(),
            final(self).state() == old(self).state().closing(),
            !final(self).has_transport(),
            !final(self).wired(),
            !final(self).connected(),
            final(self).cached_tools() == old(self).cached_tools(),
            final(self).cached_resources() == old(self).cached_resources(),
            final(self).server_info() == old(self).server_info(),
    {
        self.disconnect()
    }

    /// Records that the server process is gone and its streams are
    /// released: a session that was closing is disconnected.
    pub fn closed(&mut self)
        requires
            old(self).wf(),
        ensures
            final(self).wf(),
            final(self).pending() == old(self).pending(),
            final(self).upcoming() == old(self).upcoming(),
            final(self).wired() == old(self).wired(),
            final(self).has_transport() == old(self).has_transport(),
            final(self).cached_tools() == old(self).cached_tools(),
            final(self).cached_resources() == old(self).cached_resources(),
            final(self).server_info() == old(self).server_info(),
            old(self).state().stays_or_leads_to(final(self).state()),
            final(self).state() == if old(self).state() == ConnectionState::Closing {
                ConnectionState::Disconnected
            } else {
                old(self).state()
            },
    {
        if self.state == ConnectionState::Closing {
            self.state = ConnectionState::Disconnected;
        }
    }

    /// Where the connection stands.
    pub fn connection_state(&self) -> (r: ConnectionState)
        ensures
            r == self.state(),
    {
        self.state
    }

    /// The cached tools as the host's agent uses them, in the order of
    /// the cache.
    pub fn get_tools(&self) -> (tools: Vec<VegaMcpTool>)
        ensures
            tools@.len() == self.cached_tools().len(),
            forall|i: int|
                0 <= i < tools@.len() ==> tools@[i].tool_name() == self.cached_tools()[i].0@
                    && tools@[i].definition() == self.cached_tools()[i].1@,
    {
        let mut tools: Vec<VegaMcpTool> = Vec::new();
        let mut i: usize = 0;
        while i < self.tools.len()
            invariant
                i <= self.tools.len(),
                tools@.len() == i,
                forall|k: int|
                    0 <= k < i ==> tools@[k].tool_name() == self.tools@[k].0@
                        && tools@[k].definition() == self.tools@[k].1@,
            decreases self.tools.len() - i,
        {
            tools.push(VegaMcpTool::new(self.tools[i].0.clone(), self.tools[i].1.copy()));
            i += 1;
        }
        tools
    }

    /// The names of the cached tools.
    pub fn list_tools(&self) -> (names: Vec<String>)
        ensures
            texts(names@) == keys_of(self.cached_tools()),
    {
        let names = key_list(&self.tools);
        assert(texts(names@) =~= keys_of(self.cached_tools()));
        names
    }

    /// The cached definition of the tool `name`.
    pub fn get_tool_definition(&self, name: &str) -> (r: Result<ToolDefinition, ClientError>)
        ensures
            match r {
                Ok(d) => self.tool_map().contains_key(name@) && self.tool_map()[name@] == d@,
                Err(e) => !self.tool_map().contains_key(name@) && (e matches ClientError::ToolNotFound(
                    n,
                ) && n@ == name@),
            },
    {
        match get_key(&self.tools, name) {
            Some(d) => Ok(d.copy()),
            None => Err(ClientError::ToolNotFound(name.to_string())),
        }
    }

    /// The addresses of the cached resources.
    pub fn list_resources(&self) -> (names: Vec<String>)
        ensures
            texts(names@) == keys_of(self.cached_resources()),
    {
        let names = key_list(&self.resources);
        assert(texts(names@) =~= keys_of(self.cached_resources()));
        names
    }

    /// What the server declared in the handshake.
    pub fn get_server_info(&self) -> (r: Option<&Json>)
        ensures
            match r {
                Some(doc) => self.server_info() == Some(doc@),
                None => self.server_info().is_none(),
            },
    {
        self.server_info.as_ref()
    }

    /// The number of requests that await a reply.
    pub fn pending_count(&self) -> (n: usize)
        ensures
            n == self.pending().len(),
    {
        self.router.pending_count()
    }
}

/// The counter of a session never falls over a run of steps in which no
/// step lets it fall.
pub proof fn lemma_counter_never_falls<S>(sessions: Seq<McpClient<S>>, p: int, q: int)
    requires
        0 <= p <= q < sessions.len(),
        forall|k: int|
            0 <= k < sessions.len() - 1 ==> (#[trigger] sessions[k]).upcoming() <= sessions[k
                + 1].upcoming(),
    ensures
        sessions[p].upcoming() <= sessions[q].upcoming(),
    decreases q - p,
{
    if p < q {
        lemma_counter_never_falls(sessions, p, q - 1);
        assert(sessions[q - 1].upcoming() <= sessions[q - 1 + 1].upcoming());
    }
}

/// Requests opened on one session never share an identifier, however the
/// session's operations are interleaved: of two requests, the one opened
/// later carries the greater identifier, and both are at least 1. Here
/// `sessions` is the session before and after each of its steps; every
/// operation of a session leaves the counter as it is or adds one to it.
pub proof fn lemma_later_request_has_greater_id<S>(
    sessions: Seq<McpClient<S>>,
    p: int,
    q: int,
    first: Request,
    first_slot: S,
    first_method: Seq<char>,
    first_params: Option<JsonValue>,
    second: Request,
    second_slot: S,
    second_method: Seq<char>,
    second_params: Option<JsonValue>,
)
    requires
        0 <= p < q < sessions.len() - 1,
        forall|k: int|
            0 <= k < sessions.len() - 1 ==> (#[trigger] sessions[k]).upcoming() <= sessions[k
                + 1].upcoming(),
        sessions[p + 1].opened(&sessions[p], first_slot, Ok(first), first_method, first_params),
        sessions[q + 1].opened(
            &sessions[q],
            second_slot,
            Ok(second),
            second_method,
            second_params,
        ),
    ensures
        first.id@ == id_doc(sessions[p].upcoming()),
        second.id@ == id_doc(sessions[q].upcoming()),
        1 <= sessions[p].upcoming() < sessions[q].upcoming(),
        first.id@ != second.id@,
{
    lemma_counter_never_falls(sessions, p + 1, q);
}

} // verus!
