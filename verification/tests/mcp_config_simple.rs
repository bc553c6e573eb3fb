use vega::mcp::config::{
    ClientSettings, McpClientConfig, McpConfig, McpServerConfig, McpSettings, ServerSettings,
    TransportConfig, TransportOptions, TransportType,
};
use vega::mcp::json::Json;
use vega::mcp::simple::{
    SimpleMcpClient, SimpleMcpClientConfig, SimpleMcpError, SimpleMcpManager, SimpleMcpServer,
    SimpleMcpServerConfig,
};
use vega::mcp::McpManager;

#[test]
fn test_mcp_config_default() {
    let config = McpConfig::default();
    assert!(config.server.is_none());
    assert!(config.clients.is_empty());
    assert!(!config.settings.debug);
}

#[test]
fn test_mcp_server_config_default() {
    let config = McpServerConfig::default();
    assert_eq!(config.name, "vega-mcp-server");
    assert!(!config.exposed_tools.is_empty());
    assert!(config.exposed_tools.contains(&"bash".to_string()));
}

#[test]
fn test_mcp_client_config_default() {
    let config = McpClientConfig::default();
    assert_eq!(config.server_name, "external-server");
    assert_eq!(config.command, "python");
    assert!(!config.args.is_empty());
}

#[test]
fn test_transport_config() {
    let config = TransportConfig::default();
    assert!(matches!(config.transport_type, TransportType::Stdio));
    assert_eq!(config.options.timeout, Some(30));
}

#[test]
fn test_mcp_config_client_management() {
    let mut config = McpConfig::default();
    let client_config = McpClientConfig::default();

    config.add_client("test".to_string(), client_config);
    assert!(config.has_client("test"));

    config.remove_client("test");
    assert!(!config.has_client("test"));
}

#[test]
fn test_mcp_config_server_management() {
    let mut config = McpConfig::default();
    assert!(config.server.is_none());

    let server_config = McpServerConfig::default();
    config.enable_server(server_config);
    assert!(config.server.is_some());

    config.disable_server();
    assert!(config.server.is_none());
}

#[test]
fn config_defaults_in_full() {
    let server = McpServerConfig::default();
    assert_eq!(server.description, "Vega AI Agent MCP Server");
    assert_eq!(server.version, "0.1.0");
    assert_eq!(
        server.exposed_tools,
        vec!["bash", "read_file", "edit_file", "list_files", "code_search", "web_search", "read_logs"]
    );
    let settings = ServerSettings::default();
    assert!(settings.enable_cors);
    assert_eq!(settings.max_request_size, 10 * 1024 * 1024);
    assert!(settings.rate_limit.is_none());
    let options = TransportOptions::default();
    assert_eq!(options.buffer_size, Some(8192));
    assert_eq!(options.keep_alive, Some(true));
    assert!(options.extra.is_empty());
    let shared = McpSettings::default();
    assert_eq!(shared.max_concurrent_calls, 10);
    assert_eq!(shared.default_timeout, 30);
    assert!(shared.auto_reconnect);
    assert_eq!(shared.retry_attempts, 3);
    let client = ClientSettings::default();
    assert!(!client.connection_pooling);
    assert_eq!(client.max_connections, 1);
    assert_eq!(client.connection_timeout, 10);
    let client = McpClientConfig::default();
    assert_eq!(client.args, vec!["server.py"]);
    assert!(client.env.is_empty());
    assert!(client.cwd.is_none());
}

#[test]
fn transport_options_clone_keeps_everything() {
    let mut options = TransportOptions::default();
    options.timeout = Some(7);
    options.extra.push(("depth".to_string(), Json::unsigned(3)));
    let copy = options.clone();
    assert_eq!(copy.timeout, Some(7));
    assert_eq!(copy.extra.len(), 1);
    assert_eq!(copy.extra[0].0, "depth");
    assert_eq!(copy.extra[0].1.as_u64(), Some(3));
}

#[test]
fn adding_a_client_twice_replaces_it() {
    let mut config = McpConfig::default();
    config.add_client("a".to_string(), McpClientConfig::default());
    let mut other = McpClientConfig::default();
    other.command = "node".to_string();
    config.add_client("b".to_string(), McpClientConfig::default());
    config.add_client("a".to_string(), other);
    assert_eq!(config.clients.len(), 2);
    assert_eq!(config.clients[0].0, "a");
    assert_eq!(config.clients[0].1.command, "node");
    config.remove_client("missing");
    assert_eq!(config.clients.len(), 2);
    config.remove_client("a");
    assert_eq!(config.clients.len(), 1);
    assert_eq!(config.clients[0].0, "b");
}

#[test]
fn test_mcp_manager_creation() {
    let config = McpConfig::default();
    let manager = McpManager::with_config(config);
    assert!(manager.clients.is_empty());
    assert!(manager.server.is_none());
}

#[test]
fn manager_follows_the_configuration() {
    let mut config = McpConfig::default();
    let mut server = McpServerConfig::default();
    server.name = "mine".to_string();
    config.enable_server(server);
    let mut client = McpClientConfig::default();
    client.command = "node".to_string();
    client.args = vec!["s.js".to_string()];
    config.add_client("js".to_string(), client);
    config.add_client("py".to_string(), McpClientConfig::default());

    let manager = McpManager::with_config(config);
    assert_eq!(
        manager.server().unwrap().server_info().get("name").unwrap().as_str(),
        Some("mine")
    );
    assert_eq!(manager.clients.len(), 2);
    assert!(manager.client("js").is_some());
    assert!(!manager.client("js").unwrap().is_connected());
    assert!(manager.client("py").is_some());
    assert!(manager.client("rb").is_none());
}

#[test]
fn test_simple_mcp_server() {
    let config = SimpleMcpServerConfig::default();
    let server = SimpleMcpServer::new(config);

    assert!(!server.list_tools().is_empty());
    assert!(server.has_tool("bash"));
    assert!(server.has_tool("read_file"));
}

#[test]
fn simple_server_in_full() {
    let config = SimpleMcpServerConfig::default();
    assert_eq!(
        config.enabled_tools,
        vec!["bash", "read_file", "edit_file", "list_files", "code_search", "web_search"]
    );
    let server = SimpleMcpServer::new(config);
    assert!(!server.has_tool("edit_file"));
    let tools = server.list_tools();
    assert_eq!(tools.len(), 2);
    assert_eq!(tools[0].name, "bash");
    assert_eq!(tools[0].description, "Execute bash commands");
    assert_eq!(
        tools[0].input_schema.to_text().unwrap(),
        r#"{"properties":{"command":{"description":"Command to execute","type":"string"}},"required":["command"],"type":"object"}"#
    );
    assert_eq!(tools[1].name, "read_file");
    assert_eq!(
        tools[1].input_schema.to_text().unwrap(),
        r#"{"properties":{"path":{"description":"Path to file","type":"string"}},"required":["path"],"type":"object"}"#
    );
    assert_eq!(
        server.call_tool("bash", Json::parse(r#"{"command":"ls"}"#).unwrap()).to_text().unwrap(),
        r#"{"arguments":{"command":"ls"},"result":"Tool execution placeholder","success":true,"tool":"bash"}"#
    );
    assert_eq!(
        server.server_info().to_text().unwrap(),
        r#"{"capabilities":{"tools":{"listChanged":false}},"name":"vega-mcp-server","version":"0.1.0"}"#
    );
}

#[test]
fn test_simple_mcp_client() {
    let config = SimpleMcpClientConfig::default();
    let client = SimpleMcpClient::new(config);

    assert!(!client.is_connected());
}

#[test]
fn test_client_connection() {
    let config = SimpleMcpClientConfig::default();
    let mut client = SimpleMcpClient::new(config);

    assert!(client.connect().is_ok());
    assert!(client.is_connected());

    assert!(client.disconnect().is_ok());
    assert!(!client.is_connected());
}

#[test]
fn simple_client_answers_only_when_connected() {
    let config = SimpleMcpClientConfig::default();
    assert_eq!(config.server_command, "python");
    assert_eq!(config.server_args, vec!["mcp_server.py"]);
    let mut client = SimpleMcpClient::new(config);
    assert_eq!(client.list_tools().unwrap_err(), SimpleMcpError::NotConnected);
    assert_eq!(client.call_tool("x", Json::Null).unwrap_err(), SimpleMcpError::NotConnected);
    assert_eq!(SimpleMcpError::NotConnected.message(), "Not connected to server");
    client.connect().unwrap();
    assert_eq!(client.list_tools().unwrap(), vec!["server_tool_1", "server_tool_2"]);
    assert_eq!(
        client.call_tool("x", Json::unsigned(1)).unwrap().to_text().unwrap(),
        r#"{"arguments":1,"result":"Remote tool call placeholder","tool":"x"}"#
    );
}

#[test]
fn test_mcp_manager() {
    let mut manager = SimpleMcpManager::new();

    let server_config = SimpleMcpServerConfig::default();
    manager.start_server(server_config);
    assert!(manager.server().is_some());

    let client_config = SimpleMcpClientConfig::default();
    manager.add_client("test_client".to_string(), client_config);
    assert!(manager.client("test_client").is_some());
}
