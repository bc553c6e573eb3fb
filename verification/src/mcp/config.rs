//! Configuration of the protocol's clients and server.

use super::json::Json;
use crate::keyed::{distinct_keys, has_key, put_key, take_key, value_of, with_entry, without_entry};
use crate::text::texts;
use vstd::prelude::*;

verus! {

/// Available transport types.
#[derive(Debug, Clone, Copy, PartialEq, Eq, Structural)]
pub enum TransportType {
    /// Standard input and output of a child process.
    Stdio,
    /// Server-sent events.
    Sse,
    /// Plain HTTP.
    Http,
}

/// Options of a transport.
#[derive(Debug)]
pub struct TransportOptions {
    /// Timeout for operations, in seconds.
    pub timeout: Option<u64>,
    /// Buffer size for I/O operations.
    pub buffer_size: Option<usize>,
    /// Whether the connection is kept alive.
    pub keep_alive: Option<bool>,
    /// Further settings, by name.
    pub extra: Vec<(String, Json)>,
}

impl Default for TransportOptions {
    fn default() -> (r: Self)
        ensures
            r.timeout == Some(30u64),
            r.buffer_size == Some(8192usize),
            r.keep_alive == Some(true),
            r.extra@.len() == 0,
    {
        TransportOptions {
            timeout: Some(30),
            buffer_size: Some(8192),
            keep_alive: Some(true),
            extra: Vec::new(),
        }
    }
}

impl Clone for TransportOptions {
    fn clone(&self) -> (r: Self)
        ensures
            r.timeout == self.timeout,
            r.buffer_size == self.buffer_size,
            r.keep_alive == self.keep_alive,
            r.extra@.len() == self.extra@.len(),
            forall|i: int|
                0 <= i < r.extra@.len() ==> r.extra@[i].0@ == self.extra@[i].0@ && r.extra@[i].1@
                    == self.extra@[i].1@,
    {
        let mut extra: Vec<(String, Json)> = Vec::new();
        let mut i: usize = 0;
        while i < self.extra.len()
            invariant
                i <= self.extra.len(),
                extra@.len() == i,
                forall|k: int|
                    0 <= k < i ==> extra@[k].0@ == self.extra@[k].0@ && extra@[k].1@
                        == self.extra@[k].1@,
            decreases self.extra.len() - i,
        {
            extra.push((self.extra[i].0.clone(), self.extra[i].1.clone()));
            i += 1;
        }
        TransportOptions {
            timeout: self.timeout,
            buffer_size: self.buffer_size,
            keep_alive: self.keep_alive,
            extra,
        }
    }
}

/// Transport layer configuration.
#[derive(Debug)]
pub struct TransportConfig {
    pub transport_type: TransportType,
    pub options: TransportOptions,
}

impl Clone for TransportConfig {
    fn clone(&self) -> (r: Self)
        ensures
            r.transport_type == self.transport_type,
            r.options.timeout == self.options.timeout,
            r.options.buffer_size == self.options.buffer_size,
            r.options.keep_alive == self.options.keep_alive,
            r.options.extra@.len() == self.options.extra@.len(),
    {
        TransportConfig { transport_type: self.transport_type, options: self.options.clone() }
    }
}

impl Default for TransportConfig {
    fn default() -> (r: Self)
        ensures
            r.transport_type == TransportType::Stdio,
            r.options.timeout == Some(30u64),
            r.options.buffer_size == Some(8192usize),
            r.options.keep_alive == Some(true),
            r.options.extra@.len() == 0,
    {
        TransportConfig { transport_type: TransportType::Stdio, options: TransportOptions::default() }
    }
}

/// Settings shared by all connections.
#[derive(Debug, Clone)]
pub struct McpSettings {
    pub debug: bool,
    pub max_concurrent_calls: usize,
    /// Default timeout for tool calls, in seconds.
    pub default_timeout: u64,
    pub auto_reconnect: bool,
    pub retry_attempts: usize,
}

impl Default for McpSettings {
    fn default() -> (r: Self)
        ensures
            !r.debug,
            r.max_concurrent_calls == 10,
            r.default_timeout == 30,
            r.auto_reconnect,
            r.retry_attempts == 3,
    {
        McpSettings {
            debug: false,
            max_concurrent_calls: 10,
            default_timeout: 30,
            auto_reconnect: true,
            retry_attempts: 3,
        }
    }
}

/// Rate limiting configuration.
#[derive(Debug, Clone)]
pub struct RateLimit {
    pub max_requests: usize,
    pub window_seconds: u64,
}

/// Settings of a server.
#[derive(Debug, Clone)]
pub struct ServerSettings {
    pub enable_cors: bool,
    /// Maximum request size, in bytes.
    pub max_request_size: usize,
    pub rate_limit: Option<RateLimit>,
}

impl Default for ServerSettings {
    fn default() -> (r: Self)
        ensures
            r.enable_cors,
            r.max_request_size == 10485760,
            r.rate_limit.is_none(),
    {
        ServerSettings { enable_cors: true, max_request_size: 10485760, rate_limit: None }
    }
}

/// Settings of a client.
#[derive(Debug, Clone)]
pub struct ClientSettings {
    pub connection_pooling: bool,
    pub max_connections: usize,
    /// Connection timeout, in seconds.
    pub connection_timeout: u64,
}

impl Default for ClientSettings {
    fn default() -> (r: Self)
        ensures
            !r.connection_pooling,
            r.max_connections == 1,
            r.connection_timeout == 10,
    {
        ClientSettings { connection_pooling: false, max_connections: 1, connection_timeout: 10 }
    }
}

/// Configuration of a server instance.
#[derive(Debug, Clone)]
pub struct McpServerConfig {
    pub name: String,
    pub description: String,
    pub version: String,
    pub transport: TransportConfig,
    /// The tools that the server offers, by name.
    pub exposed_tools: Vec<String>,
    pub settings: ServerSettings,
}

/// The tools that a server offers unless told otherwise.
pub open spec fn default_exposed_tools() -> Seq<Seq<char>> {
    seq![
        "bash"@,
        "read_file"@,
        "edit_file"@,
        "list_files"@,
        "code_search"@,
        "web_search"@,
        "read_logs"@,
    ]
}

impl Default for McpServerConfig {
    fn default() -> (r: Self)
        ensures
            r.name@ == "vega-mcp-server"@,
            r.description@ == "Vega AI Agent MCP Server"@,
            r.version@ == "0.1.0"@,
            r.transport.transport_type == TransportType::Stdio,
            texts(r.exposed_tools@) == default_exposed_tools(),
            r.settings.enable_cors,
            r.settings.rate_limit.is_none(),
    {
        let mut exposed_tools: Vec<String> = Vec::new();
        exposed_tools.push("bash".to_string());
        exposed_tools.push("read_file".to_string());
        exposed_tools.push("edit_file".to_string());
        exposed_tools.push("list_files".to_string());
        exposed_tools.push("code_search".to_string());
        exposed_tools.push("web_search".to_string());
        exposed_tools.push("read_logs".to_string());
        assert(texts(exposed_tools@) =~= default_exposed_tools());
        McpServerConfig {
            name: "vega-mcp-server".to_string(),
            description: "Vega AI Agent MCP Server".to_string(),
            version: "0.1.0".to_string(),
            transport: TransportConfig::default(),
            exposed_tools,
            settings: ServerSettings::default(),
        }
    }
}

/// Configuration of one client connection.
#[derive(Debug, Clone)]
pub struct McpClientConfig {
    pub server_name: String,
    /// Command that starts the server.
    pub command: String,
    pub args: Vec<String>,
    /// Environment variables of the server process, by name.
    pub env: Vec<(String, String)>,
    /// Working directory of the server process.
    pub cwd: Option<String>,
    pub transport: TransportConfig,
    pub settings: ClientSettings,
}

impl Default for McpClientConfig {
    fn default() -> (r: Self)
        ensures
            r.server_name@ == "external-server"@,
            r.command@ == "python"@,
            texts(r.args@) == seq!["server.py"@],
            r.env@.len() == 0,
            r.cwd.is_none(),
            r.transport.transport_type == TransportType::Stdio,
            r.settings.connection_timeout == 10,
    {
        let mut args: Vec<String> = Vec::new();
        args.push("server.py".to_string());
        assert(texts(args@) =~= seq!["server.py"@]);
        McpClientConfig {
            server_name: "external-server".to_string(),
            command: "python".to_string(),
            args,
            env: Vec::new(),
            cwd: None,
            transport: TransportConfig::default(),
            settings: ClientSettings::default(),
        }
    }
}

/// Whether tools can be listed, and whether changes are announced.
#[derive(Debug, Clone)]
pub struct ToolsCapability {
    pub list_changed: Option<bool>,
}

/// Whether resources can be listed and subscribed to.
#[derive(Debug, Clone)]
pub struct ResourcesCapability {
    pub subscribe: Option<bool>,
    pub list_changed: Option<bool>,
}

/// Whether prompts can be listed.
#[derive(Debug, Clone)]
pub struct PromptsCapability {
    pub list_changed: Option<bool>,
}

/// The log levels that a server supports.
#[derive(Debug, Clone)]
pub struct LoggingCapability {
    pub levels: Option<Vec<String>>,
}

/// What a server declares that it supports.
#[derive(Debug, Clone)]
pub struct ServerCapabilities {
    pub tools: Option<ToolsCapability>,
    pub resources: Option<ResourcesCapability>,
    pub prompts: Option<PromptsCapability>,
    pub logging: Option<LoggingCapability>,
}

/// Identity and capabilities of a server.
#[derive(Debug, Clone)]
pub struct McpServerInfo {
    pub name: String,
    pub version: String,
    pub capabilities: ServerCapabilities,
}

/// The whole configuration: an optional server, the clients by name, and
/// the shared settings.
#[derive(Debug, Clone)]
pub struct McpConfig {
    pub server: Option<McpServerConfig>,
    pub clients: Vec<(String, McpClientConfig)>,
    pub settings: McpSettings,
}

impl Default for McpConfig {
    fn default() -> (r: Self)
        ensures
            r.wf(),
            r.server.is_none(),
            r.clients@.len() == 0,
            !r.settings.debug,
    {
        McpConfig { server: None, clients: Vec::new(), settings: McpSettings::default() }
    }
}

impl McpConfig {
    /// No client name is configured twice.
    pub open spec fn wf(&self) -> bool {
        distinct_keys(self.clients@)
    }

    /// Adds the client `name`, in place of an earlier client of that name.
    pub fn add_client(&mut self, name: String, config: McpClientConfig)
        requires
            old(self).wf(),
        ensures
            final(self).wf(),
            final(self).clients@ == with_entry(old(self).clients@, name, config),
            value_of(final(self).clients@, name@) == Some(config),
            final(self).server == old(self).server,
            final(self).settings == old(self).settings,
    {
        let _ = put_key(&mut self.clients, name, config);
    }

    /// Removes the client `name`, if there is one.
    pub fn remove_client(&mut self, name: &str)
        requires
            old(self).wf(),
        ensures
            final(self).wf(),
            final(self).clients@ == without_entry(old(self).clients@, name@),
            !has_key(final(self).clients@, name@),
            final(self).server == old(self).server,
            final(self).settings == old(self).settings,
    {
        let _ = take_key(&mut self.clients, name);
    }

    /// Whether a client of this name is configured.
    pub fn has_client(&self, name: &str) -> (r: bool)
        ensures
            r == has_key(self.clients@, name@),
    {
        crate::keyed::find_key(&self.clients, name) < self.clients.len()
    }

    /// Turns the server on, with the given configuration.
    pub fn enable_server(&mut self, config: McpServerConfig)
        ensures
            final(self).server == Some(config),
            final(self).clients == old(self).clients,
            final(self).settings == old(self).settings,
    {
        self.server = Some(config);
    }

    /// Turns the server off.
    pub fn disable_server(&mut self)
        ensures
            final(self).server.is_none(),
            final(self).clients == old(self).clients,
            final(self).settings == old(self).settings,
    {
        self.server = None;
    }
}

} // verus!
