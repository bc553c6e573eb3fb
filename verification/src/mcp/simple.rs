//! A small server and client that answer from what they hold, without a
//! connection behind them.

use super::bridge::{make_object_schema, make_property, object_schema, property};
use super::json::{values_of, Json, JsonValue, ObjectBuilder};
use crate::keyed::{distinct_keys, get_key, has_key, put_key, value_of, with_entry};
use crate::text::texts;
use vstd::prelude::*;

verus! {

/// Configuration of the small server.
#[derive(Debug, Clone)]
pub struct SimpleMcpServerConfig {
    pub name: String,
    pub version: String,
    pub enabled_tools: Vec<String>,
}

impl Default for SimpleMcpServerConfig {
    fn default() -> (r: Self)
        ensures
            r.name@ == "vega-mcp-server"@,
            r.version@ == "0.1.0"@,
            texts(r.enabled_tools@) == seq![
                "bash"@,
                "read_file"@,
                "edit_file"@,
                "list_files"@,
                "code_search"@,
                "web_search"@,
            ],
    {
        let mut enabled_tools: Vec<String> = Vec::new();
        enabled_tools.push("bash".to_string());
        enabled_tools.push("read_file".to_string());
        enabled_tools.push("edit_file".to_string());
        enabled_tools.push("list_files".to_string());
        enabled_tools.push("code_search".to_string());
        enabled_tools.push("web_search".to_string());
        assert(texts(enabled_tools@) =~= seq![
            "bash"@,
            "read_file"@,
            "edit_file"@,
            "list_files"@,
            "code_search"@,
            "web_search"@,
        ]);
        SimpleMcpServerConfig {
            name: "vega-mcp-server".to_string(),
            version: "0.1.0".to_string(),
            enabled_tools,
        }
    }
}

/// A tool of the small server.
#[derive(Debug)]
pub struct SimpleMcpTool {
    pub name: String,
    pub description: String,
    pub input_schema: Json,
}

/// The schema of a tool that takes one required string.
pub open spec fn single_string_schema(parameter: Seq<char>, description: Seq<char>) -> JsonValue {
    object_schema(
        seq![(parameter, property("string"@, description))],
        seq![JsonValue::Text(parameter)],
    )
}

/// Whether a tool is the one with this name, description and single
/// parameter.
pub open spec fn is_simple_tool(
    tool: SimpleMcpTool,
    name: Seq<char>,
    description: Seq<char>,
    parameter: Seq<char>,
    parameter_description: Seq<char>,
) -> bool {
    &&& tool.name@ == name
    &&& tool.description@ == description
    &&& tool.input_schema@ == single_string_schema(parameter, parameter_description)
}

fn simple_tool(name: &str, description: &str, parameter: &str, parameter_description: &str) -> (r:
    SimpleMcpTool)
    ensures
        is_simple_tool(r, name@, description@, parameter@, parameter_description@),
{
    let mut properties = ObjectBuilder::new();
    properties.put(parameter, make_property("string", parameter_description));
    assert(properties@ =~= seq![(parameter@, property("string"@, parameter_description@))]);
    let mut required: Vec<Json> = Vec::new();
    required.push(Json::text(parameter));
    assert(values_of(required@) =~= seq![JsonValue::Text(parameter@)]);
    SimpleMcpTool {
        name: name.to_string(),
        description: description.to_string(),
        input_schema: make_object_schema(properties, required),
    }
}

/// What the small server answers to a tool call: a note that the call was
/// taken, with the tool's name and the arguments.
pub open spec fn acknowledgement(name: Seq<char>, arguments: JsonValue) -> JsonValue {
    JsonValue::Object(
        seq![
            ("success"@, JsonValue::Bool(true)),
            ("tool"@, JsonValue::Text(name)),
            ("arguments"@, arguments),
            ("result"@, JsonValue::Text("Tool execution placeholder"@)),
        ],
    )
}

/// What the small client answers to a tool call.
pub open spec fn remote_acknowledgement(name: Seq<char>, arguments: JsonValue) -> JsonValue {
    JsonValue::Object(
        seq![
            ("tool"@, JsonValue::Text(name)),
            ("arguments"@, arguments),
            ("result"@, JsonValue::Text("Remote tool call placeholder"@)),
        ],
    )
}

/// The identity and capabilities of a server with this name and version.
pub open spec fn simple_server_info(name: Seq<char>, version: Seq<char>) -> JsonValue {
    JsonValue::Object(
        seq![
            ("name"@, JsonValue::Text(name)),
            ("version"@, JsonValue::Text(version)),
            (
                "capabilities"@,
                JsonValue::Object(
                    seq![
                        (
                            "tools"@,
                            JsonValue::Object(seq![("listChanged"@, JsonValue::Bool(false))]),
                        ),
                    ],
                ),
            ),
        ],
    )
}

/// A server that holds two tools, `bash` and `read_file`.
#[derive(Debug)]
pub struct SimpleMcpServer {
    config: SimpleMcpServerConfig,
    tools: Vec<(String, SimpleMcpTool)>,
}

impl SimpleMcpServer {
    /// The tools of the server, by name.
    pub closed spec fn tools(&self) -> Seq<(String, SimpleMcpTool)> {
        self.tools@
    }

    /// The name that the server was configured with.
    pub closed spec fn name(&self) -> Seq<char> {
        self.config.name@
    }

    /// The version that the server was configured with.
    pub closed spec fn version(&self) -> Seq<char> {
        self.config.version@
    }

    /// A server with the two default tools.
    pub fn new(config: SimpleMcpServerConfig) -> (r: Self)
        ensures
            r.name() == config.name@,
            r.version() == config.version@,
            distinct_keys(r.tools()),
            r.tools().len() == 2,
            r.tools()[0].0@ == "bash"@,
            is_simple_tool(
                r.tools()[0].1,
                "bash"@,
                "Execute bash commands"@,
                "command"@,
                "Command to execute"@,
            ),
            r.tools()[1].0@ == "read_file"@,
            is_simple_tool(
                r.tools()[1].1,
                "read_file"@,
                "Read file contents"@,
                "path"@,
                "Path to file"@,
            ),
    {
        let mut server = SimpleMcpServer { config, tools: Vec::new() };
        server.setup_default_tools();
        server
    }

    /// Puts the two default tools in place.
    fn setup_default_tools(&mut self)
        requires
            old(self).tools().len() == 0,
        ensures
            final(self).name() == old(self).name(),
            final(self).version() == old(self).version(),
            distinct_keys(final(self).tools()),
            final(self).tools().len() == 2,
            final(self).tools()[0].0@ == "bash"@,
            is_simple_tool(
                final(self).tools()[0].1,
                "bash"@,
                "Execute bash commands"@,
                "command"@,
                "Command to execute"@,
            ),
            final(self).tools()[1].0@ == "read_file"@,
            is_simple_tool(
                final(self).tools()[1].1,
                "read_file"@,
                "Read file contents"@,
                "path"@,
                "Path to file"@,
            ),
    {
        proof {
            reveal_strlit("bash");
            reveal_strlit("read_file");
            assert("bash"@.len() != "read_file"@.len());
        }
        self.tools.push(
            (
                "bash".to_string(),
                simple_tool("bash", "Execute bash commands", "command", "Command to execute"),
            ),
        );
        self.tools.push(
            (
                "read_file".to_string(),
                simple_tool("read_file", "Read file contents", "path", "Path to file"),
            ),
        );
    }

    /// Whether the server holds a tool of this name.
    pub fn has_tool(&self, name: &str) -> (r: bool)
        ensures
            r == has_key(self.tools(), name@),
    {
        get_key(&self.tools, name).is_some()
    }

    /// The tools of the server.
    pub fn list_tools(&self) -> (r: Vec<&SimpleMcpTool>)
        ensures
            r@.len() == self.tools().len(),
            forall|i: int| 0 <= i < r@.len() ==> *r@[i] == self.tools()[i].1,
    {
        let mut out: Vec<&SimpleMcpTool> = Vec::new();
        let mut i: usize = 0;
        while i < self.tools.len()
            invariant
                i <= self.tools.len(),
                out@.len() == i,
                forall|k: int| 0 <= k < i ==> *out@[k] == self.tools@[k].1,
            decreases self.tools.len() - i,
        {
            out.push(&self.tools[i].1);
            i += 1;
        }
        out
    }

    /// Takes a tool call and answers with a note that it was taken.
    pub fn call_tool(&self, name: &str, arguments: Json) -> (r: Json)
        ensures
            r@ == acknowledgement(name@, arguments@),
    {
        let mut b = ObjectBuilder::new();
        b.put("success", Json::Bool(true));
        b.put("tool", Json::text(name));
        b.put("arguments", arguments);
        b.put("result", Json::text("Tool execution placeholder"));
        assert(b@ =~= acknowledgement(name@, arguments@)->Object_0);
        b.build()
    }

    /// The identity and capabilities of the server.
    pub fn server_info(&self) -> (r: Json)
        ensures
            r@ == simple_server_info(self.name(), self.version()),
    {
        let mut tools = ObjectBuilder::new();
        tools.put("listChanged", Json::Bool(false));
        assert(tools@ =~= seq![("listChanged"@, JsonValue::Bool(false))]);
        let mut capabilities = ObjectBuilder::new();
        capabilities.put("tools", tools.build());
        assert(capabilities@ =~= seq![
            ("tools"@, JsonValue::Object(seq![("listChanged"@, JsonValue::Bool(false))])),
        ]);
        let mut b = ObjectBuilder::new();
        b.put("name", Json::text(self.config.name.as_str()));
        b.put("version", Json::text(self.config.version.as_str()));
        b.put("capabilities", capabilities.build());
        assert(b@ =~= simple_server_info(self.name(), self.version())->Object_0);
        b.build()
    }
}

/// Configuration of the small client.
#[derive(Debug, Clone)]
pub struct SimpleMcpClientConfig {
    pub server_command: String,
    pub server_args: Vec<String>,
}

impl Default for SimpleMcpClientConfig {
    fn default() -> (r: Self)
        ensures
            r.server_command@ == "python"@,
            texts(r.server_args@) == seq!["mcp_server.py"@],
    {
        let mut server_args: Vec<String> = Vec::new();
        server_args.push("mcp_server.py".to_string());
        assert(texts(server_args@) =~= seq!["mcp_server.py"@]);
        SimpleMcpClientConfig { server_command: "python".to_string(), server_args }
    }
}

/// Why the small client could not answer.
#[derive(Debug, Clone, Copy, PartialEq, Eq, Structural)]
pub enum SimpleMcpError {
    /// The client is not connected to a server.
    NotConnected,
}

impl SimpleMcpError {
    /// The error in words.
    pub fn message(&self) -> (r: String)
        ensures
            r@ == "Not connected to server"@,
    {
        "Not connected to server".to_string()
    }
}

/// A client that keeps whether it is connected and answers from that.
#[derive(Debug)]
pub struct SimpleMcpClient {
    config: SimpleMcpClientConfig,
    connected: bool,
}

impl SimpleMcpClient {
    /// Whether the client is connected.
    pub closed spec fn connected(&self) -> bool {
        self.connected
    }

    /// The configuration of the client.
    pub closed spec fn configuration(&self) -> SimpleMcpClientConfig {
        self.config
    }

    /// The client as it is made: with this configuration, not connected.
    pub closed spec fn fresh(config: SimpleMcpClientConfig) -> Self {
        SimpleMcpClient { config, connected: false }
    }

    /// A client that is not connected.
    pub fn new(config: SimpleMcpClientConfig) -> (r: Self)
        ensures
            r == Self::fresh(config),
            !r.connected(),
            r.configuration() == config,
    {
        SimpleMcpClient { config, connected: false }
    }

    /// Whether the client is connected.
    pub fn is_connected(&self) -> (r: bool)
        ensures
            r == self.connected(),
    {
        self.connected
    }

    /// Connects the client.
    pub fn connect(&mut self) -> (r: Result<(), SimpleMcpError>)
        ensures
            r is Ok,
            final(self).connected(),
            final(self).configuration() == old(self).configuration(),
    {
        self.connected = true;
        Ok(())
    }

    /// The tools of the server: two stand-ins, once the client is
    /// connected.
    pub fn list_tools(&self) -> (r: Result<Vec<String>, SimpleMcpError>)
        ensures
            match r {
                Ok(names) => self.connected() && texts(names@) == seq![
                    "server_tool_1"@,
                    "server_tool_2"@,
                ],
                Err(e) => !self.connected() && e == SimpleMcpError::NotConnected,
            },
    {
        if !self.connected {
            return Err(SimpleMcpError::NotConnected);
        }
        let mut names: Vec<String> = Vec::new();
        names.push("server_tool_1".to_string());
        names.push("server_tool_2".to_string());
        assert(texts(names@) =~= seq!["server_tool_1"@, "server_tool_2"@]);
        Ok(names)
    }

    /// Takes a tool call and answers with a note that it was taken, once
    /// the client is connected.
    pub fn call_tool(&self, name: &str, arguments: Json) -> (r: Result<Json, SimpleMcpError>)
        ensures
            match r {
                Ok(doc) => self.connected() && doc@ == remote_acknowledgement(
                    name@,
                    arguments@,
                ),
                Err(e) => !self.connected() && e == SimpleMcpError::NotConnected,
            },
    {
        if !self.connected {
            return Err(SimpleMcpError::NotConnected);
        }
        let mut b = ObjectBuilder::new();
        b.put("tool", Json::text(name));
        b.put("arguments", arguments);
        b.put("result", Json::text("Remote tool call placeholder"));
        assert(b@ =~= remote_acknowledgement(name@, arguments@)->Object_0);
        Ok(b.build())
    }

    /// Disconnects the client.
    pub fn disconnect(&mut self) -> (r: Result<(), SimpleMcpError>)
        ensures
            r is Ok,
            !final(self).connected(),
            final(self).configuration() == old(self).configuration(),
    {
        self.connected = false;
        Ok(())
    }
}

/// Holds a server, if one was started, and the clients by name.
#[derive(Debug)]
pub struct SimpleMcpManager {
    pub server: Option<SimpleMcpServer>,
    pub clients: Vec<(String, SimpleMcpClient)>,
}

impl SimpleMcpManager {
    /// No client name is held twice.
    pub open spec fn wf(&self) -> bool {
        distinct_keys(self.clients@)
    }

    /// A manager without server and clients.
    pub fn new() -> (r: Self)
        ensures
            r.wf(),
            r.server.is_none(),
            r.clients@.len() == 0,
    {
        SimpleMcpManager { server: None, clients: Vec::new() }
    }

    /// Starts a server with the given configuration, in place of an
    /// earlier one.
    pub fn start_server(&mut self, config: SimpleMcpServerConfig)
        ensures
            final(self).clients == old(self).clients,
            final(self).server matches Some(s) && s.name() == config.name@ && s.version()
                == config.version@ && s.tools().len() == 2,
    {
        let server = SimpleMcpServer::new(config);
        self.server = Some(server);
    }

    /// Adds a client under `name`, in place of an earlier client of that
    /// name. The client is not connected.
    pub fn add_client(&mut self, name: String, config: SimpleMcpClientConfig)
        requires
            old(self).wf(),
        ensures
            final(self).wf(),
            final(self).server == old(self).server,
            final(self).clients@ == with_entry(
                old(self).clients@,
                name,
                SimpleMcpClient::fresh(config),
            ),
            value_of(final(self).clients@, name@) == Some(SimpleMcpClient::fresh(config)),
    {
        let client = SimpleMcpClient::new(config);
        let _ = put_key(&mut self.clients, name, client);
    }

    /// The server, if one was started.
    pub fn server(&self) -> (r: Option<&SimpleMcpServer>)
        ensures
            match r {
                Some(s) => self.server == Some(*s),
                None => self.server.is_none(),
            },
    {
        self.server.as_ref()
    }

    /// The client held under `name`.
    pub fn client(&self, name: &str) -> (r: Option<&SimpleMcpClient>)
        ensures
            match r {
                Some(c) => value_of(self.clients@, name@) == Some(*c),
                None => !has_key(self.clients@, name@),
            },
    {
        get_key(&self.clients, name)
    }
}

impl Default for SimpleMcpManager {
    fn default() -> (r: Self)
        ensures
            r.wf(),
            r.server.is_none(),
            r.clients@.len() == 0,
    {
        SimpleMcpManager::new()
    }
}

} // verus!
