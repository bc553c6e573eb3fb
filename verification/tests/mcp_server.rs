use vega::mcp::bridge::{
    BridgeError, McpContent, McpToolCallRequest, McpToolCallResponse, McpToolFactory,
    VegaToMcpBridge, VegaToolConfig,
};
use vega::mcp::config::McpServerConfig;
use vega::mcp::json::Json;
use vega::mcp::protocol::{ErrorCode, McpMessage, Request, Response};
use vega::mcp::server::{tool_config, McpServer, ServerCapabilities, ServerStep};

fn server_with(tools: &[&str]) -> McpServer {
    let mut config = McpServerConfig::default();
    config.exposed_tools = tools.iter().map(|t| t.to_string()).collect();
    McpServer::new(config)
}

fn reply(step: ServerStep) -> Response {
    match step {
        ServerStep::Reply(response) => response,
        other => panic!("expected a reply, got {:?}", other),
    }
}

fn line_of(response: Response) -> String {
    McpMessage::Response(response).encode().unwrap()
}

#[test]
fn test_mcp_tool_factory() {
    let tools = McpToolFactory::create_mcp_tools().unwrap();
    assert!(!tools.is_empty());

    let bash_tool = tools.iter().find(|t| t.name == "bash").unwrap();
    assert!(bash_tool.description.is_some());
    assert!(matches!(bash_tool.input_schema, Json::Object(_)));
}

#[test]
fn catalog_holds_every_tool_of_the_host_in_order() {
    let tools = McpToolFactory::create_mcp_tools().unwrap();
    let names: Vec<&str> = tools.iter().map(|t| t.name.as_str()).collect();
    assert_eq!(
        names,
        vec![
            "bash",
            "read_file",
            "edit_file",
            "list_files",
            "code_search",
            "web_search",
            "read_logs"
        ]
    );
    assert_eq!(
        tools[6].input_schema.to_text().unwrap(),
        r#"{"properties":{"level_filter":{"description":"Filter logs by level (error, warn, info, debug, trace). Shows specified level and higher priority levels.","enum":["error","warn","info","debug","trace"],"type":"string"},"limit":{"description":"Maximum number of log entries to return (default: 50)","maximum":1000,"minimum":1,"type":"integer"},"session_id":{"description":"The session ID to read logs for","type":"string"}},"required":["session_id"],"type":"object"}"#
    );
    assert_eq!(
        tools[0].input_schema.to_text().unwrap(),
        concat_bash_schema()
    );
    assert_eq!(
        tools[5].description.as_deref(),
        Some("Perform web searches using DuckDuckGo to find current information")
    );
    let line_range = tools[1]
        .input_schema
        .get("properties")
        .unwrap()
        .get("line_range")
        .unwrap()
        .to_text()
        .unwrap();
    assert_eq!(
        line_range,
        r#"{"description":"Line range [start_line, end_line] (1-indexed)","items":{"type":"number"},"maxItems":2,"minItems":2,"type":"array"}"#
    );
    assert_eq!(
        tools[2].input_schema.get("required").unwrap().to_text().unwrap(),
        r#"["path","content"]"#
    );
}

fn concat_bash_schema() -> String {
    let mut text = String::new();
    text.push_str(r#"{"properties":{"command":{"description":"The shell command to execute","type":"string"},"#);
    text.push_str(r#""timeout_seconds":{"default":30,"description":"Timeout in seconds (default: 30)","type":"number"},"#);
    text.push_str(r#""working_directory":{"description":"Working directory for the command","type":"string"}},"#);
    text.push_str(r#""required":["command"],"type":"object"}"#);
    text
}

#[test]
fn test_vega_to_mcp_bridge() {
    let bridge = VegaToMcpBridge::new();
    assert!(bridge.list_tools().is_empty());
}

#[test]
fn bridge_lists_and_defines_its_tools() {
    let mut bridge = VegaToMcpBridge::new();
    bridge.add_tool("bash".to_string(), VegaToolConfig::Bash);
    bridge.add_tool("web_search".to_string(), VegaToolConfig::WebSearch);
    bridge.add_tool("bash".to_string(), VegaToolConfig::Bash);
    assert_eq!(bridge.list_tools(), vec!["bash".to_string(), "web_search".to_string()]);

    let definition = bridge.to_mcp_tool_definition("web_search").unwrap();
    assert_eq!(definition.name, "web_search");
    let all = bridge.get_all_tools().unwrap();
    assert_eq!(all.len(), 2);
    assert_eq!(all[0].name, "bash");
    assert_eq!(all[1].name, "web_search");

    match bridge.to_mcp_tool_definition("nope") {
        Err(e) => {
            assert!(matches!(e, BridgeError::ToolNotFound(_)));
            assert_eq!(e.message(), "Tool 'nope' not found");
        }
        Ok(_) => panic!("expected an error"),
    }
}

#[test]
fn bridge_defines_every_tool_it_holds_under_its_name() {
    let mut bridge = VegaToMcpBridge::new();
    bridge.add_tool("bash".to_string(), VegaToolConfig::Bash);
    bridge.add_tool("read_logs".to_string(), VegaToolConfig::ReadLogs);
    bridge.add_tool("echo".to_string(), VegaToolConfig::Bash);
    let logs = bridge.to_mcp_tool_definition("read_logs").unwrap();
    assert_eq!(logs.name, "read_logs");
    assert!(logs.description.unwrap().starts_with("Read log messages for a specific session."));
    let echo = bridge.to_mcp_tool_definition("echo").unwrap();
    assert_eq!(echo.name, "echo");
    assert_eq!(
        echo.description.as_deref(),
        Some("Execute shell commands with safety checks and timeout protection")
    );
    assert_eq!(echo.input_schema.to_text().unwrap(), concat_bash_schema());

    let all = bridge.get_all_tools().unwrap();
    let names: Vec<&str> = all.iter().map(|t| t.name.as_str()).collect();
    assert_eq!(names, vec!["bash", "read_logs", "echo"]);
    for name in bridge.list_tools() {
        assert_eq!(bridge.to_mcp_tool_definition(&name).unwrap().name, name);
    }
    assert!(VegaToMcpBridge::new().get_all_tools().unwrap().is_empty());
    let made = VegaToMcpBridge::config_to_mcp_definition("finder", VegaToolConfig::CodeSearch);
    assert_eq!(made.name, "finder");
    assert!(made.input_schema.get("properties").unwrap().get("pattern").is_some());
}

#[test]
fn a_bridge_with_one_tool_named_echo_lists_it() {
    let mut bridge = VegaToMcpBridge::new();
    bridge.add_tool("echo".to_string(), VegaToolConfig::Bash);
    let request = Request { id: Json::unsigned(1), method: "tools/list".to_string(), params: None };
    let response = McpServer::handle_list_tools(request, &bridge);
    assert_eq!(response.id.as_u64(), Some(1));
    assert!(response.error.is_none());
    let result = response.result.unwrap();
    let tools = result.get("tools").unwrap().as_array().unwrap();
    assert_eq!(tools.len(), 1);
    assert_eq!(tools[0].get("name").unwrap().as_str(), Some("echo"));
    assert!(tools[0].get("description").unwrap().as_str().is_some());
    assert!(matches!(tools[0].get("input_schema"), Some(Json::Object(_))));
}

#[test]
fn bridge_prepares_and_completes_calls() {
    let mut bridge = VegaToMcpBridge::new();
    bridge.add_tool("read_file".to_string(), VegaToolConfig::ReadFile);
    let call = bridge
        .call_tool("read_file", &Json::parse(r#"{"path":"a.txt"}"#).unwrap())
        .unwrap();
    assert_eq!(call.config, VegaToolConfig::ReadFile);
    assert_eq!(call.arguments, r#"{"path":"a.txt"}"#);
    match bridge.call_tool("write_file", &Json::Null) {
        Err(BridgeError::ToolNotFound(name)) => assert_eq!(name, "write_file"),
        other => panic!("unexpected: {:?}", other),
    }

    let done = VegaToMcpBridge::complete_call(Ok(r#"{"content":"hi","lines":1}"#.to_string()));
    assert_eq!(done.unwrap().to_text().unwrap(), r#"{"content":"hi","lines":1}"#);
    let plain = VegaToMcpBridge::complete_call(Ok("plain words".to_string()));
    assert_eq!(plain.unwrap().as_str(), Some("plain words"));
    match VegaToMcpBridge::complete_call(Err("disk full".to_string())) {
        Err(e) => assert_eq!(e.message(), "Tool call failed: disk full"),
        Ok(_) => panic!("expected an error"),
    }
}

#[test]
fn test_mcp_content_serialization() {
    let content =
        McpContent { content_type: "text".to_string(), text: Some("Hello, world!".to_string()) };

    let serialized = content.to_json().to_text().unwrap();
    assert!(serialized.contains("text"));
    assert!(serialized.contains("Hello, world!"));
    assert_eq!(serialized, r#"{"text":"Hello, world!","type":"text"}"#);
}

#[test]
fn tool_call_envelope_wire_form() {
    let outcome = McpToolCallResponse::of_text("done".to_string(), false);
    assert_eq!(
        outcome.to_json().to_text().unwrap(),
        r#"{"content":[{"text":"done","type":"text"}],"isError":false}"#
    );
    let unknown = McpToolCallResponse {
        content: vec![McpContent { content_type: "image".to_string(), text: None }],
        is_error: None,
    };
    assert_eq!(unknown.to_json().to_text().unwrap(), r#"{"content":[{"type":"image"}]}"#);
    let asked =
        McpToolCallRequest::from_json(&Json::parse(r#"{"name":"bash","arguments":[1]}"#).unwrap())
            .unwrap();
    assert_eq!(asked.name, "bash");
    assert_eq!(asked.arguments.unwrap().to_text().unwrap(), "[1]");
    assert!(McpToolCallRequest::from_json(&Json::parse(r#"{"name":7}"#).unwrap()).is_none());
}

#[test]
fn test_mcp_server_creation() {
    let config = McpServerConfig::default();
    let server = McpServer::new(config);

    assert!(!server.config().exposed_tools.is_empty());
    assert!(server.capabilities().tools.is_some());
}

#[test]
fn test_server_capabilities() {
    let capabilities = ServerCapabilities::default();

    assert!(capabilities.tools.is_some());
    assert!(capabilities.logging.is_some());
    assert!(capabilities.resources.is_none());
    assert!(capabilities.prompts.is_none());
}

#[test]
fn test_error_response_creation() {
    let response =
        McpServer::create_error_response(Json::unsigned(1), ErrorCode::InvalidParams, "Test error");

    assert!(response.error.is_some());
    assert!(response.result.is_none());
    assert_eq!(response.error.unwrap().message, "Test error");
}

#[test]
fn exposed_names_stand_for_host_tools() {
    assert_eq!(tool_config("bash"), Some(VegaToolConfig::Bash));
    assert_eq!(tool_config("read_file"), Some(VegaToolConfig::ReadFile));
    assert_eq!(tool_config("edit_file"), Some(VegaToolConfig::EditFile));
    assert_eq!(tool_config("list_files"), Some(VegaToolConfig::ListFiles));
    assert_eq!(tool_config("code_search"), Some(VegaToolConfig::CodeSearch));
    assert_eq!(tool_config("web_search"), Some(VegaToolConfig::WebSearch));
    assert_eq!(tool_config("read_logs"), Some(VegaToolConfig::ReadLogs));
    assert_eq!(tool_config("Bash"), None);
    assert_eq!(tool_config(""), None);
}

#[test]
fn server_runs_and_stops() {
    let mut server = server_with(&["bash"]);
    assert!(!server.is_running());
    server.run();
    assert!(server.is_running());
    server.stop();
    assert!(!server.is_running());
}

#[test]
fn malformed_line_then_tools_list_gives_one_response() {
    let server = server_with(&["bash", "no_such_tool"]);
    let mut responses = Vec::new();
    for line in ["this is not json\n", "{\"id\":1,\"method\":\"tools/list\"}\n"] {
        match server.process_message(line) {
            ServerStep::Reply(response) => responses.push(response),
            ServerStep::Malformed => {}
            other => panic!("unexpected: {:?}", other),
        }
    }
    assert_eq!(responses.len(), 1);
    let response = responses.pop().unwrap();
    assert_eq!(response.id.as_u64(), Some(1));
    assert!(response.error.is_none());
    let tools = response.result.as_ref().unwrap().get("tools").unwrap().as_array().unwrap();
    assert_eq!(tools.len(), 1);
    assert_eq!(tools[0].get("name").unwrap().as_str(), Some("bash"));
    let line = McpServer::response_line(response).unwrap();
    assert!(line.starts_with(r#"{"id":1,"result":{"tools":[{"description":"Execute shell"#));
    assert!(line.ends_with("}]}}\n"));
    assert_eq!(line.matches('\n').count(), 1);
}

#[test]
fn blank_lines_and_other_messages_are_left_unanswered() {
    let server = server_with(&["bash"]);
    assert!(matches!(server.process_message(""), ServerStep::Blank));
    assert!(matches!(server.process_message("  \t \n"), ServerStep::Blank));
    assert!(matches!(server.process_message("[]"), ServerStep::Malformed));
    assert!(matches!(server.process_message("{\"id\":1,\"result\":1}"), ServerStep::Unanswered));
    assert!(matches!(
        server.process_message("{\"method\":\"notifications/initialized\"}"),
        ServerStep::Unanswered
    ));
}

#[test]
fn unknown_tool_is_a_domain_error() {
    let server = server_with(&["bash"]);
    let response = reply(server.process_message(
        r#"{"id":5,"method":"tools/call","params":{"name":"teleport","arguments":{}}}"#,
    ));
    assert!(response.error.is_none());
    let result = response.result.as_ref().unwrap();
    assert!(matches!(result.get("isError"), Some(Json::Bool(true))));
    assert_eq!(
        line_of(response),
        r#"{"id":5,"result":{"content":[{"text":"Error calling tool 'teleport': Tool 'teleport' not found","type":"text"}],"isError":true}}"#
    );
}

#[test]
fn unknown_method_is_a_protocol_error() {
    let server = server_with(&["bash"]);
    let response = reply(server.process_message(r#"{"id":"q","method":"tools/destroy"}"#));
    assert!(response.result.is_none());
    let error = response.error.as_ref().unwrap();
    assert_eq!(error.code, ErrorCode::MethodNotFound);
    assert_eq!(error.message, "Method 'tools/destroy' not found");
    assert_eq!(
        line_of(response),
        r#"{"error":{"code":-32601,"data":null,"message":"Method 'tools/destroy' not found"},"id":"q"}"#
    );
}

#[test]
fn tools_call_needs_parameters_and_a_name() {
    let server = server_with(&["bash"]);
    let response = reply(server.process_message(r#"{"id":1,"method":"tools/call"}"#));
    let error = response.error.unwrap();
    assert_eq!(error.code, ErrorCode::InvalidParams);
    assert_eq!(error.message, "Missing parameters for tool call");

    let response =
        reply(server.process_message(r#"{"id":1,"method":"tools/call","params":{"arguments":1}}"#));
    let error = response.error.unwrap();
    assert_eq!(error.code, ErrorCode::InvalidParams);
    assert_eq!(error.message, "Missing 'name' parameter");

    let response =
        reply(server.process_message(r#"{"id":1,"method":"tools/call","params":{"name":5}}"#));
    assert_eq!(response.error.unwrap().message, "Missing 'name' parameter");
}

#[test]
fn tools_call_names_the_tool_to_run_and_is_finished_with_its_outcome() {
    let server = server_with(&["bash", "read_file"]);
    let step = server.process_message(
        r#"  {"id":9,"method":"tools/call","params":{"name":"read_file","arguments":{"path":"a"}}}  "#,
    );
    let (id, name, call) = match step {
        ServerStep::Invoke { id, name, call } => (id, name, call),
        other => panic!("unexpected: {:?}", other),
    };
    assert_eq!(id.as_u64(), Some(9));
    assert_eq!(name, "read_file");
    assert_eq!(call.config, VegaToolConfig::ReadFile);
    assert_eq!(call.arguments, r#"{"path":"a"}"#);

    let outcome = VegaToMcpBridge::complete_call(Ok(r#"{"lines":2}"#.to_string()));
    let response = McpServer::finish_call_tool(id.clone(), &name, outcome);
    assert_eq!(
        line_of(response),
        r#"{"id":9,"result":{"content":[{"text":"{\n  \"lines\": 2\n}","type":"text"}],"isError":false}}"#
    );

    let outcome = VegaToMcpBridge::complete_call(Err("no such file".to_string()));
    let response = McpServer::finish_call_tool(id, &name, outcome);
    assert_eq!(
        line_of(response),
        r#"{"id":9,"result":{"content":[{"text":"Error calling tool 'read_file': Tool call failed: no such file","type":"text"}],"isError":true}}"#
    );
}

#[test]
fn tools_call_without_arguments_passes_null() {
    let server = server_with(&["bash"]);
    match server.process_message(r#"{"id":1,"method":"tools/call","params":{"name":"bash"}}"#) {
        ServerStep::Invoke { call, .. } => assert_eq!(call.arguments, "null"),
        other => panic!("unexpected: {:?}", other),
    }
}

#[test]
fn initialize_declares_capabilities_and_identity() {
    let server = server_with(&["bash"]);
    let response = reply(server.process_message(r#"{"id":1,"method":"initialize","params":{}}"#));
    assert_eq!(
        line_of(response),
        r#"{"id":1,"result":{"capabilities":{"logging":{"levels":["error","warn","info","debug"]},"tools":{"listChanged":false}},"protocolVersion":"2025-06-18","serverInfo":{"name":"vega-mcp-server","version":"0.1.0"}}}"#
    );
    let response =
        reply(server.process_message(r#"{"id":2,"method":"notifications/initialized"}"#));
    assert_eq!(line_of(response), r#"{"id":2,"result":null}"#);
}

#[test]
fn default_server_lists_all_the_tools_it_exposes() {
    let config = McpServerConfig::default();
    let exposed = config.exposed_tools.clone();
    let server = McpServer::new(config);
    let response = reply(server.process_message(r#"{"id":1,"method":"tools/list"}"#));
    assert!(response.error.is_none());
    let result = response.result.unwrap();
    let tools = result.get("tools").unwrap().as_array().unwrap();
    let names: Vec<&str> =
        tools.iter().map(|t| t.get("name").unwrap().as_str().unwrap()).collect();
    assert_eq!(names, exposed);
    assert_eq!(names.len(), 7);
}

#[test]
fn handlers_answer_with_the_request_id() {
    let request =
        Request { id: Json::text("abc"), method: "initialize".to_string(), params: None };
    let response = McpServer::handle_initialized(request);
    assert_eq!(response.id.as_str(), Some("abc"));
    assert!(response.result.unwrap().is_null());
}
