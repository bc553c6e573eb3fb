//! The server side of the protocol: one request per line in, one response
//! per line out.
//!
//! The server answers `initialize`, `notifications/initialized`,
//! `tools/list` and `tools/call`. It does not insist that `initialize`
//! comes first: a `tools/call` before the handshake is served like any
//! other.

use super::bridge::{definition_doc, held_definitions, text_outcome, BridgeError};
use super::bridge::{McpToolCallRequest, McpToolCallResponse, ToolCall};
use super::bridge::{ToolDefinitionValue, VegaToMcpBridge, VegaToolConfig};
use super::config::McpServerConfig;
use crate::text::texts;
use super::json::{json_text, json_text_pretty, optional_view, values_of};
use super::json::{Json, JsonValue, ObjectBuilder};
use super::protocol::{line_message, response_doc, ErrorCode, McpError, McpErrorValue};
use super::protocol::{McpMessage, McpMessageValue, Request, RequestValue, Response};
use super::protocol::ResponseValue;
use crate::keyed::{value_of, with_entry};
use crate::text::{same_text, trim, trimmed};
use vstd::prelude::*;
use vstd::string::{StrSliceExecFns, StringExecFns};

verus! {

/// Whether changes to the tool list are announced.
#[derive(Debug, Clone)]
pub struct ToolsCapability {
    pub list_changed: bool,
}

/// Whether resources can be subscribed to, and changes are announced.
#[derive(Debug, Clone)]
pub struct ResourcesCapability {
    pub subscribe: bool,
    pub list_changed: bool,
}

/// Whether changes to the prompt list are announced.
#[derive(Debug, Clone)]
pub struct PromptsCapability {
    pub list_changed: bool,
}

/// The log levels that the server supports.
#[derive(Debug, Clone)]
pub struct LoggingCapability {
    pub levels: Vec<String>,
}

/// What the server declares in the handshake; it stays the same for the
/// life of the connection.
#[derive(Debug, Clone)]
pub struct ServerCapabilities {
    pub tools: Option<ToolsCapability>,
    pub resources: Option<ResourcesCapability>,
    pub prompts: Option<PromptsCapability>,
    pub logging: Option<LoggingCapability>,
}

impl Default for ServerCapabilities {
    fn default() -> (r: Self)
        ensures
            r.tools matches Some(t) && !t.list_changed,
            r.resources.is_none(),
            r.prompts.is_none(),
            r.logging matches Some(l) && texts(l.levels@) == seq![
                "error"@,
                "warn"@,
                "info"@,
                "debug"@,
            ],
    {
        let mut levels: Vec<String> = Vec::new();
        levels.push("error".to_string());
        levels.push("warn".to_string());
        levels.push("info".to_string());
        levels.push("debug".to_string());
        assert(texts(levels@) =~= seq!["error"@, "warn"@, "info"@, "debug"@]);
        ServerCapabilities {
            tools: Some(ToolsCapability { list_changed: false }),
            resources: None,
            prompts: None,
            logging: Some(LoggingCapability { levels }),
        }
    }
}

/// The texts of a list of strings as JSON strings.
pub open spec fn text_docs(items: Seq<String>) -> Seq<JsonValue> {
    Seq::new(items.len(), |i: int| JsonValue::Text(items[i]@))
}

/// The capabilities as they are declared in the handshake.
pub open spec fn capabilities_doc(c: ServerCapabilities) -> JsonValue {
    JsonValue::Object(
        seq![
            (
                "tools"@,
                match c.tools {
                    Some(t) => JsonValue::Object(
                        seq![("listChanged"@, JsonValue::Bool(t.list_changed))],
                    ),
                    None => JsonValue::Null,
                },
            ),
            (
                "logging"@,
                match c.logging {
                    Some(l) => JsonValue::Object(
                        seq![("levels"@, JsonValue::Array(text_docs(l.levels@)))],
                    ),
                    None => JsonValue::Null,
                },
            ),
        ],
    )
}

/// The result of `initialize`: protocol version, capabilities and the
/// server's identity.
pub open spec fn server_info_doc(c: ServerCapabilities) -> JsonValue {
    JsonValue::Object(
        seq![
            ("protocolVersion"@, JsonValue::Text("2025-06-18"@)),
            ("capabilities"@, capabilities_doc(c)),
            (
                "serverInfo"@,
                JsonValue::Object(
                    seq![
                        ("name"@, JsonValue::Text("vega-mcp-server"@)),
                        ("version"@, JsonValue::Text("0.1.0"@)),
                    ],
                ),
            ),
        ],
    )
}

/// A response that carries a protocol error.
pub open spec fn error_response(id: JsonValue, code: ErrorCode, message: Seq<char>) -> ResponseValue {
    ResponseValue {
        id,
        result: None,
        error: Some(McpErrorValue { code, message, data: None }),
    }
}

/// A response that carries a result.
pub open spec fn result_response(id: JsonValue, result: JsonValue) -> ResponseValue {
    ResponseValue { id, result: Some(result), error: None }
}

/// The result of `tools/list`.
pub open spec fn tool_list_doc(tools: Seq<ToolDefinitionValue>) -> JsonValue {
    JsonValue::Object(
        seq![("tools"@, JsonValue::Array(Seq::new(tools.len(), |i: int| definition_doc(tools[i]))))],
    )
}

/// The text that tells of a failed tool call.
pub open spec fn failure_text(name: Seq<char>, account: Seq<char>) -> Seq<char> {
    "Error calling tool '"@ + name + "': "@ + account
}

/// A document as it is shown in a tool result: indented, or on one line
/// where that cannot be written, or empty where neither can.
pub open spec fn shown(doc: JsonValue) -> Seq<char> {
    match json_text_pretty(doc) {
        Some(t) => t,
        None => match json_text(doc) {
            Some(t) => t,
            None => Seq::empty(),
        },
    }
}

/// The host tool that an exposed name stands for.
pub open spec fn tool_for_name(name: Seq<char>) -> Option<VegaToolConfig> {
    if name == "bash"@ {
        Some(VegaToolConfig::Bash)
    } else if name == "read_file"@ {
        Some(VegaToolConfig::ReadFile)
    } else if name == "edit_file"@ {
        Some(VegaToolConfig::EditFile)
    } else if name == "list_files"@ {
        Some(VegaToolConfig::ListFiles)
    } else if name == "code_search"@ {
        Some(VegaToolConfig::CodeSearch)
    } else if name == "web_search"@ {
        Some(VegaToolConfig::WebSearch)
    } else if name == "read_logs"@ {
        Some(VegaToolConfig::ReadLogs)
    } else {
        None
    }
}

/// The bridge's tools after the names of a configuration were set up, one
/// after the other; names that stand for no tool are passed over.
pub open spec fn configured(
    tools: Seq<(String, VegaToolConfig)>,
    names: Seq<String>,
) -> Seq<(String, VegaToolConfig)>
    decreases names.len(),
{
    if names.len() == 0 {
        tools
    } else {
        configured(
            match tool_for_name(names[0]@) {
                Some(config) => with_entry(tools, names[0], config),
                None => tools,
            },
            names.drop_first(),
        )
    }
}

/// The host tool that an exposed name stands for.
pub fn tool_config(name: &str) -> (r: Option<VegaToolConfig>)
    ensures
        r == tool_for_name(name@),
{
    if same_text(name, "bash") {
        Some(VegaToolConfig::Bash)
    } else if same_text(name, "read_file") {
        Some(VegaToolConfig::ReadFile)
    } else if same_text(name, "edit_file") {
        Some(VegaToolConfig::EditFile)
    } else if same_text(name, "list_files") {
        Some(VegaToolConfig::ListFiles)
    } else if same_text(name, "code_search") {
        Some(VegaToolConfig::CodeSearch)
    } else if same_text(name, "web_search") {
        Some(VegaToolConfig::WebSearch)
    } else if same_text(name, "read_logs") {
        Some(VegaToolConfig::ReadLogs)
    } else {
        None
    }
}

/// What the server does with one line of input.
#[derive(Debug)]
pub enum ServerStep {
    /// The line is blank: nothing happens.
    Blank,
    /// The line holds no message: it is dropped, and the next line is
    /// read.
    Malformed,
    /// The line holds a response or a notification, which a server leaves
    /// unanswered.
    Unanswered,
    /// The line holds a request that is answered at once.
    Reply(Response),
    /// The line asks to run a tool of the host. Once the tool has run,
    /// `finish_call_tool` makes the response.
    Invoke { id: Json, name: String, call: ToolCall },
}

/// The error that answers a `tools/call` whose parameters are missing or
/// name no tool; `None` where they name one.
pub open spec fn call_refusal(id: JsonValue, params: Option<JsonValue>) -> Option<ResponseValue> {
    match params {
        None => Some(
            error_response(id, ErrorCode::InvalidParams, "Missing parameters for tool call"@),
        ),
        Some(p) => match called_name(p) {
            None => Some(error_response(id, ErrorCode::InvalidParams, "Missing 'name' parameter"@)),
            Some(_) => None,
        },
    }
}

/// The tool that the parameters of a `tools/call` name.
pub open spec fn called_name(params: JsonValue) -> Option<Seq<char>> {
    match params.member("name"@) {
        Some(n) => n.text(),
        None => None,
    }
}

/// The arguments that the parameters of a `tools/call` give, `null` where
/// they give none.
pub open spec fn called_arguments(params: JsonValue) -> JsonValue {
    match params.member("arguments"@) {
        Some(a) => a,
        None => JsonValue::Null,
    }
}

/// The response that tells the caller that a tool call failed. It is an
/// ordinary result with `isError` set, not a protocol error.
pub open spec fn failed_call_response(
    id: JsonValue,
    name: Seq<char>,
    account: Seq<char>,
) -> ResponseValue {
    result_response(id, text_outcome(failure_text(name, account), true))
}

/// The value of a [`ServerStep`].
pub ghost enum StepValue {
    Blank,
    Malformed,
    Unanswered,
    Reply(ResponseValue),
    Invoke { id: JsonValue, name: Seq<char>, config: VegaToolConfig, arguments: Seq<char> },
}

impl View for ServerStep {
    type V = StepValue;

    open spec fn view(&self) -> StepValue {
        match self {
            ServerStep::Blank => StepValue::Blank,
            ServerStep::Malformed => StepValue::Malformed,
            ServerStep::Unanswered => StepValue::Unanswered,
            ServerStep::Reply(r) => StepValue::Reply(r@),
            ServerStep::Invoke { id, name, call } => StepValue::Invoke {
                id: id@,
                name: name@,
                config: call.config,
                arguments: call.arguments@,
            },
        }
    }
}

/// The response to `tools/list` from a server that offers `tools`: the
/// definition of every one of them.
pub open spec fn list_response(tools: Seq<(String, VegaToolConfig)>, id: JsonValue) -> ResponseValue {
    result_response(id, tool_list_doc(held_definitions(tools)))
}

/// The step that a `tools/call` leads to.
pub open spec fn call_step(
    tools: Seq<(String, VegaToolConfig)>,
    id: JsonValue,
    params: Option<JsonValue>,
) -> StepValue {
    match call_refusal(id, params) {
        Some(refusal) => StepValue::Reply(refusal),
        None => {
            let name = called_name(params->Some_0)->Some_0;
            match value_of(tools, name) {
                None => StepValue::Reply(
                    failed_call_response(id, name, "Tool '"@ + name + "' not found"@),
                ),
                Some(config) => match json_text(called_arguments(params->Some_0)) {
                    None => StepValue::Reply(
                        failed_call_response(id, name, "Tool arguments cannot be written as JSON"@),
                    ),
                    Some(arguments) => StepValue::Invoke { id, name, config, arguments },
                },
            }
        },
    }
}

/// The step that a request leads to: the table of methods.
pub open spec fn request_step(
    tools: Seq<(String, VegaToolConfig)>,
    capabilities: ServerCapabilities,
    request: RequestValue,
) -> StepValue {
    if request.method == "initialize"@ {
        StepValue::Reply(result_response(request.id, server_info_doc(capabilities)))
    } else if request.method == "tools/list"@ {
        StepValue::Reply(list_response(tools, request.id))
    } else if request.method == "tools/call"@ {
        call_step(tools, request.id, request.params)
    } else if request.method == "notifications/initialized"@ {
        StepValue::Reply(result_response(request.id, JsonValue::Null))
    } else {
        StepValue::Reply(
            error_response(
                request.id,
                ErrorCode::MethodNotFound,
                "Method '"@ + request.method + "' not found"@,
            ),
        )
    }
}

/// The step that one line of input leads to.
pub open spec fn line_step(
    tools: Seq<(String, VegaToolConfig)>,
    capabilities: ServerCapabilities,
    line: Seq<char>,
) -> StepValue {
    if trimmed(line).len() == 0 {
        StepValue::Blank
    } else {
        match line_message(trimmed(line)) {
            None => StepValue::Malformed,
            Some(McpMessageValue::Request(request)) => request_step(tools, capabilities, request),
            Some(_) => StepValue::Unanswered,
        }
    }
}

/// The member names of a tool result differ from each other.
pub proof fn lemma_outcome_keys()
    ensures
        "content"@ != "isError"@,
{
    reveal_strlit("content");
    reveal_strlit("isError");
    assert("content"@[0] == 'c');
    assert("isError"@[0] == 'i');
}

/// A failed tool call, such as a call of a tool that the bridge does not
/// know, is answered by a domain error: the response has a result whose
/// `isError` is `true`, and no top-level `error`.
pub proof fn lemma_failed_call_is_domain_error(id: JsonValue, name: Seq<char>, account: Seq<char>)
    ensures
        failed_call_response(id, name, account).error.is_none(),
        failed_call_response(id, name, account).result matches Some(doc) && doc.member("isError"@)
            == Some(JsonValue::Bool(true)),
{
    lemma_outcome_keys();
    let doc = text_outcome(failure_text(name, account), true);
    let fields = doc->Object_0;
    assert(fields.len() == 2);
    assert(fields.last() == ("isError"@, JsonValue::Bool(true)));
}

/// Exposes the host's tools to a client on the other end of a pair of
/// streams.
#[derive(Debug)]
pub struct McpServer {
    config: McpServerConfig,
    bridge: VegaToMcpBridge,
    capabilities: ServerCapabilities,
    running: bool,
}

impl McpServer {
    /// The tools that the server offers.
    pub closed spec fn tools(&self) -> Seq<(String, VegaToolConfig)> {
        self.bridge.tools()
    }

    /// What the server declares in the handshake.
    pub closed spec fn declared(&self) -> ServerCapabilities {
        self.capabilities
    }

    /// The names of the tools that the configuration exposes.
    pub closed spec fn exposed(&self) -> Seq<String> {
        self.config.exposed_tools@
    }

    /// Whether the server accepts input.
    pub closed spec fn running(&self) -> bool {
        self.running
    }

    /// No tool name is offered twice.
    pub closed spec fn wf(&self) -> bool {
        self.bridge.wf()
    }

    /// A server that offers the tools its configuration exposes and is not
    /// running yet.
    pub fn new(config: McpServerConfig) -> (r: McpServer)
        ensures
            r.wf(),
            !r.running(),
            r.exposed() == config.exposed_tools@,
            r.tools() == configured(Seq::empty(), config.exposed_tools@),
    {
        let mut bridge = VegaToMcpBridge::new();
        assert(bridge.tools() =~= Seq::empty());
        Self::setup_tools(&mut bridge, &config.exposed_tools);
        McpServer { config, bridge, capabilities: ServerCapabilities::default(), running: false }
    }

    /// Adds to the bridge the host tool behind each exposed name; a name
    /// that stands for no tool is passed over.
    pub fn setup_tools(bridge: &mut VegaToMcpBridge, exposed_tools: &Vec<String>)
        requires
            old(bridge).wf(),
        ensures
            final(bridge).wf(),
            final(bridge).tools() == configured(old(bridge).tools(), exposed_tools@),
    {
        let mut i: usize = 0;
        assert(exposed_tools@.subrange(0, exposed_tools@.len() as int) =~= exposed_tools@);
        while i < exposed_tools.len()
            invariant
                i <= exposed_tools.len(),
                bridge.wf(),
                configured(old(bridge).tools(), exposed_tools@) == configured(
                    bridge.tools(),
                    exposed_tools@.subrange(i as int, exposed_tools@.len() as int),
                ),
            decreases exposed_tools.len() - i,
        {
            let ghost rest = exposed_tools@.subrange(i as int, exposed_tools@.len() as int);
            assert(rest[0] == exposed_tools@[i as int]);
            assert(rest.drop_first() =~= exposed_tools@.subrange(
                i + 1,
                exposed_tools@.len() as int,
            ));
            match tool_config(exposed_tools[i].as_str()) {
                Some(config) => {
                    bridge.add_tool(exposed_tools[i].clone(), config);
                },
                None => {},
            }
            i += 1;
        }
    }

    /// Starts to accept input.
    pub fn run(&mut self)
        requires
            old(self).wf(),
        ensures
            final(self).wf(),
            final(self).running(),
            final(self).tools() == old(self).tools(),
            final(self).declared() == old(self).declared(),
            final(self).exposed() == old(self).exposed(),
    {
        self.running = true;
    }

    /// Stops accepting input. What was answered before stays answered.
    pub fn stop(&mut self)
        requires
            old(self).wf(),
        ensures
            final(self).wf(),
            !final(self).running(),
            final(self).tools() == old(self).tools(),
            final(self).declared() == old(self).declared(),
            final(self).exposed() == old(self).exposed(),
    {
        self.running = false;
    }

    /// Whether the server accepts input.
    pub fn is_running(&self) -> (r: bool)
        ensures
            r == self.running(),
    {
        self.running
    }

    /// The server's configuration.
    pub fn config(&self) -> (r: &McpServerConfig)
        ensures
            r.exposed_tools@ == self.exposed(),
    {
        &self.config
    }

    /// What the server declares in the handshake.
    pub fn capabilities(&self) -> (r: &ServerCapabilities)
        ensures
            *r == self.declared(),
    {
        &self.capabilities
    }

    /// A response that carries a protocol error.
    pub fn create_error_response(id: Json, code: ErrorCode, message: &str) -> (r: Response)
        ensures
            r@ == error_response(id@, code, message@),
    {
        Response {
            id,
            result: None,
            error: Some(McpError { code, message: message.to_string(), data: None }),
        }
    }

    /// Answers `initialize` with the protocol version, the capabilities and
    /// the server's identity.
    pub fn handle_initialize(request: Request, capabilities: &ServerCapabilities) -> (r: Response)
        ensures
            r@ == result_response(request.id@, server_info_doc(*capabilities)),
    {
        let tools = match &capabilities.tools {
            Some(t) => {
                let mut b = ObjectBuilder::new();
                b.put("listChanged", Json::Bool(t.list_changed));
                assert(b@ =~= seq![("listChanged"@, JsonValue::Bool(t.list_changed))]);
                b.build()
            },
            None => Json::Null,
        };
        let logging = match &capabilities.logging {
            Some(l) => {
                let mut levels: Vec<Json> = Vec::new();
                let mut i: usize = 0;
                while i < l.levels.len()
                    invariant
                        i <= l.levels.len(),
                        levels@.len() == i,
                        forall|k: int| 0 <= k < i ==> levels@[k]@ == JsonValue::Text(l.levels@[k]@),
                    decreases l.levels.len() - i,
                {
                    levels.push(Json::text(l.levels[i].as_str()));
                    i += 1;
                }
                assert(values_of(levels@) =~= text_docs(l.levels@));
                let mut b = ObjectBuilder::new();
                b.put("levels", Json::array(levels));
                assert(b@ =~= seq![("levels"@, JsonValue::Array(text_docs(l.levels@)))]);
                b.build()
            },
            None => Json::Null,
        };
        let mut caps = ObjectBuilder::new();
        caps.put("tools", tools);
        caps.put("logging", logging);
        assert(caps@ =~= capabilities_doc(*capabilities)->Object_0);
        let mut identity = ObjectBuilder::new();
        identity.put("name", Json::text("vega-mcp-server"));
        identity.put("version", Json::text("0.1.0"));
        assert(identity@ =~= seq![
            ("name"@, JsonValue::Text("vega-mcp-server"@)),
            ("version"@, JsonValue::Text("0.1.0"@)),
        ]);
        let mut info = ObjectBuilder::new();
        info.put("protocolVersion", Json::text("2025-06-18"));
        info.put("capabilities", caps.build());
        info.put("serverInfo", identity.build());
        assert(info@ =~= server_info_doc(*capabilities)->Object_0);
        Response { id: request.id, result: Some(info.build()), error: None }
    }

    /// Acknowledges `notifications/initialized` with a `null` result.
    pub fn handle_initialized(request: Request) -> (r: Response)
        ensures
            r@ == result_response(request.id@, JsonValue::Null),
    {
        Response { id: request.id, result: Some(Json::Null), error: None }
    }

    /// Answers `tools/list` with the definitions of all the tools offered.
    pub fn handle_list_tools(request: Request, bridge: &VegaToMcpBridge) -> (r: Response)
        ensures
            r@ == list_response(bridge.tools(), request.id@),
    {
        match bridge.get_all_tools() {
            Ok(tools) => {
                let mut docs: Vec<Json> = Vec::new();
                let mut i: usize = 0;
                while i < tools.len()
                    invariant
                        i <= tools.len(),
                        docs@.len() == i,
                        forall|k: int| 0 <= k < i ==> docs@[k]@ == definition_doc(tools@[k]@),
                    decreases tools.len() - i,
                {
                    docs.push(tools[i].to_json());
                    i += 1;
                }
                let ghost values = super::bridge::definitions_of(tools@);
                assert(values_of(docs@) =~= Seq::new(
                    values.len(),
                    |i: int| definition_doc(values[i]),
                ));
                let mut b = ObjectBuilder::new();
                b.put("tools", Json::array(docs));
                assert(b@ =~= tool_list_doc(values)->Object_0);
                Response { id: request.id, result: Some(b.build()), error: None }
            },
            Err(e) => {
                let mut text = "Failed to list tools: ".to_string();
                text.append(e.message().as_str());
                Self::create_error_response(request.id, ErrorCode::InternalError, text.as_str())
            },
        }
    }

    /// The response that tells the caller that a tool call failed.
    pub fn tool_error_response(id: Json, name: &str, error: &BridgeError) -> (r: Response)
        ensures
            r@ == failed_call_response(id@, name@, error.spec_message()),
    {
        let mut text = "Error calling tool '".to_string();
        text.append(name);
        text.append("': ");
        text.append(error.message().as_str());
        let outcome = McpToolCallResponse::of_text(text, true);
        Response { id, result: Some(outcome.to_json()), error: None }
    }

    /// Handles `tools/call`. Without parameters, or without a string
    /// `name` in them, the answer is an invalid-params error. A name that
    /// the bridge does not know is answered by a failed-call result. Else
    /// the step names the host tool to run and its arguments.
    pub fn handle_call_tool(request: Request, bridge: &VegaToMcpBridge) -> (step: ServerStep)
        ensures
            step@ == call_step(bridge.tools(), request.id@, optional_view(request.params)),
    {
        let params = match &request.params {
            Some(p) => p,
            None => {
                return ServerStep::Reply(
                    Self::create_error_response(
                        request.id,
                        ErrorCode::InvalidParams,
                        "Missing parameters for tool call",
                    ),
                );
            },
        };
        let asked = match McpToolCallRequest::from_json(params) {
            Some(asked) => asked,
            None => {
                return ServerStep::Reply(
                    Self::create_error_response(
                        request.id,
                        ErrorCode::InvalidParams,
                        "Missing 'name' parameter",
                    ),
                );
            },
        };
        let arguments = match asked.arguments {
            Some(a) => a,
            None => Json::Null,
        };
        match bridge.call_tool(asked.name.as_str(), &arguments) {
            Ok(call) => ServerStep::Invoke { id: request.id, name: asked.name, call },
            Err(e) => ServerStep::Reply(
                Self::tool_error_response(request.id, asked.name.as_str(), &e),
            ),
        }
    }

    /// Dispatches a request by its method. Any method but the four that
    /// the server knows is answered by a method-not-found error.
    pub fn handle_request(&self, request: Request) -> (step: ServerStep)
        ensures
            step@ == request_step(self.tools(), self.declared(), request@),
    {
        if same_text(request.method.as_str(), "initialize") {
            ServerStep::Reply(Self::handle_initialize(request, &self.capabilities))
        } else if same_text(request.method.as_str(), "tools/list") {
            ServerStep::Reply(Self::handle_list_tools(request, &self.bridge))
        } else if same_text(request.method.as_str(), "tools/call") {
            Self::handle_call_tool(request, &self.bridge)
        } else if same_text(request.method.as_str(), "notifications/initialized") {
            ServerStep::Reply(Self::handle_initialized(request))
        } else {
            let mut text = "Method '".to_string();
            text.append(request.method.as_str());
            text.append("' not found");
            ServerStep::Reply(
                Self::create_error_response(request.id, ErrorCode::MethodNotFound, text.as_str()),
            )
        }
    }

    /// Takes one line of input. A blank line is ignored and a line that
    /// holds no message is dropped; neither ends the loop. A request is
    /// dispatched; responses and notifications are left unanswered.
    pub fn process_message(&self, line: &str) -> (step: ServerStep)
        ensures
            step@ == line_step(self.tools(), self.declared(), line@),
    {
        let line = trim(line);
        if line.unicode_len() == 0 {
            return ServerStep::Blank;
        }
        match McpMessage::decode(line) {
            None => ServerStep::Malformed,
            Some(McpMessage::Request(request)) => self.handle_request(request),
            Some(_) => ServerStep::Unanswered,
        }
    }

    /// The line to write for a response: its JSON, closed by a line feed.
    /// There is one for every response.
    pub fn response_line(response: Response) -> (r: Option<String>)
        ensures
            r matches Some(line) && json_text(response_doc(response@)) == Some(line@.drop_last())
                && line@.len() > 0 && line@.last() == '\n',
    {
        match McpMessage::Response(response).encode() {
            Some(text) => {
                let mut line = text;
                let ghost body = line@;
                line.append("\n");
                proof {
                    reveal_strlit("\n");
                    assert(line@.drop_last() =~= body);
                }
                Some(line)
            },
            None => None,
        }
    }

    /// Makes the response to a `tools/call` once the tool has run: its
    /// result as indented JSON in a text, or the account of its failure
    /// with `isError` set.
    pub fn finish_call_tool(id: Json, name: &str, outcome: Result<Json, BridgeError>) -> (r:
        Response)
        ensures
            r@ == match outcome {
                Ok(result) => result_response(id@, text_outcome(shown(result@), false)),
                Err(e) => failed_call_response(id@, name@, e.spec_message()),
            },
    {
        match outcome {
            Ok(result) => {
                let text = match result.to_pretty_text() {
                    Some(t) => t,
                    None => match result.to_text() {
                        Some(t) => t,
                        None => String::new(),
                    },
                };
                let outcome = McpToolCallResponse::of_text(text, false);
                Response { id, result: Some(outcome.to_json()), error: None }
            },
            Err(e) => Self::tool_error_response(id, name, &e),
        }
    }
}

} // verus!
