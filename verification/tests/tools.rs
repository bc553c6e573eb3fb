use vega::tools::bash::{default_timeout, BashTool};
use vega::tools::code_search::CodeSearchTool;
use vega::tools::confirmed::{ConfirmedBashTool, ConfirmedEditFileTool, ConfirmedTool};
use vega::tools::edit_file::EditFileTool;
use vega::tools::list_files::{default_max_files, ListFilesTool};
use vega::tools::read_file::ReadFileTool;
use vega::tools::read_logs::{LogSource, ReadLogsTool};
use vega::tools::web_search::WebSearchTool;
use vega::tools::{create_all_tools, AnyTool, ToolError};

#[test]
fn test_bash_tool_creation() {
    let _tool = BashTool::new();
    assert_eq!(BashTool::NAME, "bash");
}

#[test]
fn test_default_timeout() {
    assert_eq!(default_timeout(), 30);
}

#[test]
fn test_dangerous_command_blocked() {
    let tool = BashTool::new();
    let result = tool.check_command("rm -rf /");
    assert!(result.is_err());

    if let Err(ToolError::InvalidInput(msg)) = result {
        assert!(msg.contains("dangerous pattern"));
    } else {
        panic!("Expected InvalidInput error");
    }
}

#[test]
fn test_safe_command() {
    let tool = BashTool::new();
    assert!(tool.check_command("echo 'hello world'").is_ok());
    let output = BashTool::output(
        "echo 'hello world'",
        "hello world\n".to_string(),
        String::new(),
        Some(0),
        true,
    );
    assert!(output.success);
    assert!(output.stdout.contains("hello world"));
    assert_eq!(output.exit_code, 0);
    assert_eq!(output.command, "echo 'hello world'");
}

#[test]
fn dangerous_patterns_are_found_in_order_and_any_case() {
    let tool = BashTool::new();
    match tool.check_command("SHUTDOWN now; mkfs /dev/sda") {
        Err(ToolError::InvalidInput(msg)) => {
            assert_eq!(msg, "Command contains potentially dangerous pattern: mkfs")
        }
        other => panic!("unexpected: {:?}", other),
    }
    match tool.check_command("sudo Reboot") {
        Err(ToolError::InvalidInput(msg)) => {
            assert_eq!(msg, "Command contains potentially dangerous pattern: reboot")
        }
        other => panic!("unexpected: {:?}", other),
    }
    assert!(tool.check_command("").is_ok());
    assert!(tool.check_command("ls -la /tmp").is_ok());
    assert_eq!(BashTool::output("x", String::new(), String::new(), None, false).exit_code, -1);
}

#[test]
fn test_code_search_tool_creation() {
    let _tool = CodeSearchTool::new();
    assert_eq!(CodeSearchTool::NAME, "code_search");
}

#[test]
fn code_search_test_default_max_results() {
    assert_eq!(vega::tools::code_search::default_max_results(), 50);
}

#[test]
fn test_parse_ripgrep_line() {
    let tool = CodeSearchTool::new();

    let line = "src/main.rs:42:15:    let result = calculate();";
    let parsed = tool.parse_ripgrep_line(line);

    assert!(parsed.is_some());
    let search_match = parsed.unwrap();
    assert_eq!(search_match.file_path, "src/main.rs");
    assert_eq!(search_match.line_number, 42);
    assert_eq!(search_match.column, Some(15));
    assert_eq!(search_match.line_content, "    let result = calculate();");
}

#[test]
fn test_parse_ripgrep_line_without_column() {
    let tool = CodeSearchTool::new();

    let line = "src/lib.rs:10:pub fn main() {";
    let parsed = tool.parse_ripgrep_line(line);

    assert!(parsed.is_some());
    let search_match = parsed.unwrap();
    assert_eq!(search_match.file_path, "src/lib.rs");
    assert_eq!(search_match.line_number, 10);
    assert_eq!(search_match.line_content, "pub fn main() {");
}

#[test]
fn parse_ripgrep_line_edge_cases() {
    let tool = CodeSearchTool::new();
    assert!(tool.parse_ripgrep_line("").is_none());
    assert!(tool.parse_ripgrep_line("no colons here").is_none());
    assert!(tool.parse_ripgrep_line("file:12").is_none());
    assert!(tool.parse_ripgrep_line("file:abc:text").is_none());
    let m = tool.parse_ripgrep_line("f:7:x:a:b:c").unwrap();
    assert_eq!(m.file_path, "f");
    assert_eq!(m.line_number, 7);
    assert_eq!(m.column, None);
    assert_eq!(m.line_content, "a:b:c");
    let m = tool.parse_ripgrep_line("f:7:3:").unwrap();
    assert_eq!(m.column, Some(3));
    assert_eq!(m.line_content, "");
    let m = tool.parse_ripgrep_line(":1:").unwrap();
    assert_eq!(m.file_path, "");
    assert_eq!(m.line_number, 1);
    assert_eq!(m.column, None);
    assert_eq!(m.line_content, "");
    let m = tool.parse_ripgrep_line("säge.rs:3:9:größer").unwrap();
    assert_eq!(m.file_path, "säge.rs");
    assert_eq!(m.column, Some(9));
    assert_eq!(m.line_content, "größer");
}

#[test]
fn test_edit_file_tool_creation() {
    let _tool = EditFileTool::new();
    assert_eq!(EditFileTool::NAME, "edit_file");
}

#[test]
fn test_validate_path_security() {
    let tool = EditFileTool::new();

    assert!(tool.validate_path("../../../etc/passwd").is_err());
    assert!(tool.validate_path("./test/../../../etc/passwd").is_err());

    assert!(tool.validate_path("/etc/passwd").is_err());
    assert!(tool.validate_path("/usr/bin/test").is_err());

    assert!(tool.validate_path("./test.txt").is_ok());
    assert!(tool.validate_path("src/main.rs").is_ok());
    assert!(tool.validate_path("/tmp/test.txt").is_ok());
}

#[test]
fn validate_path_names_the_reason() {
    let tool = EditFileTool::new();
    match tool.validate_path("/etc/../tmp") {
        Err(ToolError::InvalidInput(msg)) => assert_eq!(msg, "Path traversal (..) is not allowed"),
        other => panic!("unexpected: {:?}", other),
    }
    match tool.validate_path("/usr/sbin/x") {
        Err(ToolError::PermissionDenied(msg)) => {
            assert_eq!(msg, "Access to /usr/sbin is not allowed")
        }
        other => panic!("unexpected: {:?}", other),
    }
    match tool.validate_path("/binary") {
        Err(ToolError::PermissionDenied(msg)) => assert_eq!(msg, "Access to /bin is not allowed"),
        other => panic!("unexpected: {:?}", other),
    }
    assert!(tool.validate_path("").is_ok());
    assert!(tool.validate_path("etc/passwd").is_ok());
}

#[test]
fn test_list_files_tool_creation() {
    let _tool = ListFilesTool::new();
    assert_eq!(ListFilesTool::NAME, "list_files");
}

#[test]
fn test_default_max_files() {
    assert_eq!(default_max_files(), 1000);
}

#[test]
fn test_create_all_tools() {
    let tools = create_all_tools();
    assert_eq!(tools.len(), 7);
}

#[test]
fn create_all_tools_in_order() {
    let tools = create_all_tools();
    assert!(matches!(tools[0], AnyTool::WebSearch(_)));
    assert!(matches!(tools[1], AnyTool::Bash(_)));
    assert!(matches!(tools[2], AnyTool::CodeSearch(_)));
    assert!(matches!(tools[3], AnyTool::ReadFile(_)));
    assert!(matches!(tools[4], AnyTool::EditFile(_)));
    assert!(matches!(tools[5], AnyTool::ListFiles(_)));
    assert!(matches!(tools[6], AnyTool::ReadLogs(_)));
}

#[test]
fn test_read_file_tool_creation() {
    let _tool = ReadFileTool::new();
    assert_eq!(ReadFileTool::NAME, "read_file");
}

#[test]
fn test_is_binary_content() {
    let tool = ReadFileTool::new();

    let text_content = b"Hello, World!\nThis is text.";
    assert!(!tool.is_binary_content(text_content));

    let binary_content = b"Hello\x00World";
    assert!(tool.is_binary_content(binary_content));

    let non_printable: Vec<u8> = (0..255).collect();
    assert!(tool.is_binary_content(&non_printable));
}

#[test]
fn is_binary_content_at_the_threshold() {
    let tool = ReadFileTool::new();
    assert!(!tool.is_binary_content(b""));
    // seven printable bytes in ten: exactly at the threshold, so text
    let mut content = vec![b'a'; 7];
    content.extend_from_slice(&[1u8, 2, 3]);
    assert!(!tool.is_binary_content(&content));
    // six in ten: binary
    let mut content = vec![b'a'; 6];
    content.extend_from_slice(&[1u8, 2, 3, 4]);
    assert!(tool.is_binary_content(&content));
    assert!(!tool.is_binary_content(b"\t\r\n"));
    assert!(tool.is_binary_content(&[127u8]));
}

#[test]
fn test_web_search_tool_creation() {
    let _tool = WebSearchTool::new();
    assert_eq!(WebSearchTool::NAME, "web_search");
}

#[test]
fn web_search_test_default_max_results() {
    assert_eq!(vega::tools::web_search::default_max_results(), 5);
}

#[test]
fn confirmation_rules() {
    let asked = ConfirmedTool::new(BashTool::new(), false);
    assert!(asked.needs_confirmation());
    assert!(asked.confirm_execution("y"));
    assert!(asked.confirm_execution("  YES \n"));
    assert!(asked.confirm_execution("Yes"));
    assert!(!asked.confirm_execution(""));
    assert!(!asked.confirm_execution("n"));
    assert!(!asked.confirm_execution("yes please"));
    let unasked = ConfirmedTool::new(EditFileTool::new(), true);
    assert!(!unasked.needs_confirmation());
    assert!(unasked.confirm_execution("no"));
    assert!(ConfirmedBashTool::new(true).confirm_execution("n"));
    assert!(!ConfirmedBashTool::new(false).confirm_execution("n"));
    assert!(ConfirmedEditFileTool::new(false).confirm_execution("y\n"));
    assert_eq!(ConfirmedBashTool::NAME, "bash");
    assert_eq!(ConfirmedEditFileTool::NAME, "edit_file");
}

#[test]
fn read_logs_tool_logger() {
    let tool = ReadLogsTool::new();
    assert!(!tool.has_logger());
    let tool = tool.with_logger(vega::logging::LoggerConfig::new("s".to_string()));
    assert!(tool.has_logger());
    assert_eq!(ReadLogsTool::NAME, "read_logs");
}

#[test]
fn tool_error_messages() {
    assert_eq!(ToolError::Io("gone".to_string()).message(), "IO error: gone");
    assert_eq!(ToolError::Http("down".to_string()).message(), "HTTP error: down");
    assert_eq!(ToolError::Json("bad".to_string()).message(), "JSON error: bad");
    assert_eq!(ToolError::Command("x".to_string()).message(), "Command execution failed: x");
    assert_eq!(ToolError::FileNotFound("a.txt".to_string()).message(), "File not found: a.txt");
    assert_eq!(ToolError::PermissionDenied("no".to_string()).message(), "Permission denied: no");
    assert_eq!(ToolError::InvalidInput("why".to_string()).message(), "Invalid input: why");
}

#[test]
fn read_file_size_limit() {
    assert_eq!(ReadFileTool::max_size_bytes(None), 10 * 1024 * 1024);
    assert_eq!(ReadFileTool::max_size_bytes(Some(1)), 1024 * 1024);
    assert_eq!(ReadFileTool::max_size_bytes(Some(0)), 0);
    assert_eq!(ReadFileTool::max_size_bytes(Some(17592186044415)), 17592186044415 * 1048576);
    assert_eq!(ReadFileTool::max_size_bytes(Some(17592186044416)), u64::MAX);
    assert_eq!(ReadFileTool::max_size_bytes(Some(u64::MAX)), u64::MAX);
    assert!(ReadFileTool::check_size(10 * 1024 * 1024, None).is_ok());
    match ReadFileTool::check_size(2_000_000, Some(1)) {
        Err(ToolError::InvalidInput(msg)) => assert_eq!(
            msg,
            "File size (2000000 bytes) exceeds maximum allowed size (1048576 bytes)"
        ),
        other => panic!("unexpected: {:?}", other),
    }
}

#[test]
fn read_file_line_selection() {
    let content = "Line 1\nLine 2\nLine 3\nLine 4\nLine 5".to_string();
    assert_eq!(
        ReadFileTool::select_lines(content.clone(), None).unwrap(),
        (content.clone(), 5, false)
    );
    assert_eq!(
        ReadFileTool::select_lines(content.clone(), Some((2, 4))).unwrap(),
        ("Line 2\nLine 3\nLine 4".to_string(), 5, true)
    );
    assert_eq!(
        ReadFileTool::select_lines(content.clone(), Some((4, 9))).unwrap(),
        ("Line 4\nLine 5".to_string(), 5, false)
    );
    assert_eq!(
        ReadFileTool::select_lines(content.clone(), Some((3, 2))).unwrap(),
        (String::new(), 5, true)
    );
    assert_eq!(
        ReadFileTool::select_lines("a\r\nb\n".to_string(), Some((1, 2))).unwrap(),
        ("a\nb".to_string(), 2, false)
    );
    match ReadFileTool::select_lines(content.clone(), Some((0, 2))) {
        Err(ToolError::InvalidInput(msg)) => {
            assert_eq!(msg, "Invalid start line: 0. File has 5 lines (1-indexed)")
        }
        other => panic!("unexpected: {:?}", other),
    }
    match ReadFileTool::select_lines(content, Some((6, 7))) {
        Err(ToolError::InvalidInput(msg)) => {
            assert_eq!(msg, "Invalid start line: 6. File has 5 lines (1-indexed)")
        }
        other => panic!("unexpected: {:?}", other),
    }
}

#[test]
fn edit_file_line_replacement() {
    let existing = "Line 1\nLine 2\nLine 3\nLine 4\nLine 5";
    assert_eq!(
        EditFileTool::replace_lines(existing, "New 2\nNew 3", 2, 3).unwrap(),
        ("Line 1\nNew 2\nNew 3\nLine 4\nLine 5".to_string(), (2, 3))
    );
    assert_eq!(
        EditFileTool::replace_lines(existing, "only", 4, 99).unwrap(),
        ("Line 1\nLine 2\nLine 3\nonly".to_string(), (4, 4))
    );
    assert_eq!(
        EditFileTool::replace_lines(existing, "tail", 6, 6).unwrap(),
        ("Line 1\nLine 2\nLine 3\nLine 4\nLine 5\ntail".to_string(), (6, 6))
    );
    assert_eq!(
        EditFileTool::replace_lines(existing, "", 2, 4).unwrap(),
        ("Line 1\nLine 5".to_string(), (2, 1))
    );
    assert_eq!(
        EditFileTool::replace_lines("", "first", 1, 1).unwrap(),
        ("first".to_string(), (1, 1))
    );
    match EditFileTool::replace_lines(existing, "x", 0, 1) {
        Err(ToolError::InvalidInput(msg)) => {
            assert_eq!(msg, "Invalid start line: 0. File has 5 lines (1-indexed)")
        }
        other => panic!("unexpected: {:?}", other),
    }
    match EditFileTool::replace_lines(existing, "x", 7, 7) {
        Err(ToolError::InvalidInput(msg)) => {
            assert_eq!(msg, "Invalid start line: 7. File has 5 lines (1-indexed)")
        }
        other => panic!("unexpected: {:?}", other),
    }
}

fn edit_args(create_if_missing: bool, line_range: Option<(usize, usize)>) -> vega::tools::edit_file::EditFileArgs {
    vega::tools::edit_file::EditFileArgs {
        path: "a.txt".to_string(),
        content: "x".to_string(),
        create_if_missing,
        backup: false,
        encoding: None,
        line_range,
    }
}

#[test]
fn edit_file_target_checks() {
    assert!(EditFileTool::check_target(&edit_args(false, None), true, true).is_ok());
    assert!(EditFileTool::check_target(&edit_args(true, None), false, false).is_ok());
    match EditFileTool::check_target(&edit_args(false, None), false, false) {
        Err(ToolError::FileNotFound(msg)) => {
            assert_eq!(msg, "File 'a.txt' does not exist and create_if_missing is false")
        }
        other => panic!("unexpected: {:?}", other),
    }
    match EditFileTool::check_target(&edit_args(true, None), true, false) {
        Err(ToolError::InvalidInput(msg)) => {
            assert_eq!(msg, "Path 'a.txt' exists but is not a file")
        }
        other => panic!("unexpected: {:?}", other),
    }
    match EditFileTool::check_target(&edit_args(true, Some((1, 1))), false, false) {
        Err(ToolError::InvalidInput(msg)) => {
            assert_eq!(msg, "Cannot perform line range edit on non-existent file")
        }
        other => panic!("unexpected: {:?}", other),
    }
    assert_eq!(EditFileTool::backup_path("a.txt"), "a.txt.backup");
}

fn list_args(include_hidden: bool, file_types: Option<Vec<&str>>) -> vega::tools::list_files::ListFilesArgs {
    vega::tools::list_files::ListFilesArgs {
        directory: ".".to_string(),
        recursive: false,
        include_hidden,
        file_types: file_types.map(|t| t.iter().map(|x| x.to_string()).collect()),
        max_files: 2,
        include_size: false,
        include_modified: false,
    }
}

#[test]
fn list_files_filter_and_limit() {
    let plain = list_args(false, None);
    assert!(ListFilesTool::keep_entry(&plain, "main.rs", false, Some("rs")));
    assert!(!ListFilesTool::keep_entry(&plain, ".git", true, None));
    assert!(ListFilesTool::keep_entry(&list_args(true, None), ".git", true, None));
    assert!(ListFilesTool::keep_entry(&plain, "", false, None));
    let typed = list_args(false, Some(vec!["RS", "toml"]));
    assert!(ListFilesTool::keep_entry(&typed, "main.rs", false, Some("rs")));
    assert!(ListFilesTool::keep_entry(&typed, "Cargo.toml", false, Some("toml")));
    assert!(!ListFilesTool::keep_entry(&typed, "notes.md", false, Some("md")));
    assert!(!ListFilesTool::keep_entry(&typed, "Makefile", false, None));
    assert!(ListFilesTool::keep_entry(&typed, "src", true, None));
    assert!(!ListFilesTool::keep_entry(&typed, ".hidden.rs", false, Some("rs")));

    let info = |name: &str| vega::tools::list_files::FileInfo {
        name: name.to_string(),
        path: name.to_string(),
        is_directory: false,
        size_bytes: None,
        modified: None,
        extension: None,
    };
    let out = ListFilesTool::finish(vec![info("a"), info("b"), info("c")], ".".to_string(), 3, 0, 2);
    assert!(out.truncated);
    assert_eq!(out.files.len(), 2);
    assert_eq!(out.files[1].name, "b");
    assert_eq!(out.total_files, 3);
    let out = ListFilesTool::finish(vec![info("a"), info("b")], ".".to_string(), 2, 1, 2);
    assert!(!out.truncated);
    assert_eq!(out.files.len(), 2);
    assert_eq!(out.total_directories, 1);
}

#[test]
fn code_search_arguments() {
    let mut args = vega::tools::code_search::CodeSearchArgs {
        pattern: "fn main".to_string(),
        path: "src".to_string(),
        case_sensitive: false,
        whole_word: false,
        file_type: None,
        max_results: 50,
        context_lines: None,
    };
    assert_eq!(
        CodeSearchTool::ripgrep_args(&args),
        vec![
            "fn main", "src", "--line-number", "--column", "--no-heading", "--with-filename",
            "--ignore-case", "--max-count", "50"
        ]
    );
    args.case_sensitive = true;
    args.whole_word = true;
    args.file_type = Some("rust".to_string());
    args.context_lines = Some(3);
    args.max_results = 7;
    assert_eq!(
        CodeSearchTool::ripgrep_args(&args),
        vec![
            "fn main", "src", "--line-number", "--column", "--no-heading", "--with-filename",
            "--word-regexp", "--type", "rust", "--context", "3", "--max-count", "7"
        ]
    );
}

#[test]
fn read_logs_level_filter() {
    let entry = |level: &str, message: &str| {
        let mut e = vega::logging::LogEntry::new(
            String::new(),
            "t".to_string(),
            vega::logging::LogLevel::Info,
            message.to_string(),
            "s".to_string(),
            None,
            None,
            None,
            None,
        );
        e.level = level.to_string();
        e
    };
    let entries = || vec![entry("ERROR", "a"), entry("debug", "b"), entry("WARN", "c"), entry("odd", "d")];
    let messages = |kept: Vec<vega::logging::LogEntry>| -> Vec<String> {
        kept.into_iter().map(|e| e.message).collect()
    };
    assert_eq!(messages(ReadLogsTool::filter_by_level(entries(), None)), vec!["a", "b", "c", "d"]);
    assert_eq!(
        messages(ReadLogsTool::filter_by_level(entries(), Some("warn".to_string()))),
        vec!["a", "c"]
    );
    assert_eq!(
        messages(ReadLogsTool::filter_by_level(entries(), Some("INFO".to_string()))),
        vec!["a", "c", "d"]
    );
    assert_eq!(
        messages(ReadLogsTool::filter_by_level(entries(), Some("trace".to_string()))),
        vec!["a", "b", "c", "d"]
    );
    assert_eq!(messages(ReadLogsTool::filter_by_level(entries(), Some("error".to_string()))), vec!["a"]);
}

#[test]
fn console_log_lines_are_read() {
    let entry = ReadLogsTool::parse_console_log_line(
        "2025-09-01 21:19:32.454 UTC [INFO] Context database: \"vega_context.db\"",
        "s",
        "id".to_string(),
    )
    .unwrap();
    assert_eq!(entry.timestamp, "2025-09-01 21:19:32.454 UTC");
    assert_eq!(entry.level, "INFO");
    assert_eq!(entry.message, "Context database: \"vega_context.db\"");
    assert_eq!(entry.session_id, "s");
    assert_eq!(entry.id, "id");
    assert!(entry.metadata.is_empty());
    let short = ReadLogsTool::parse_console_log_line(
        "2025-09-01 21:19:32 UTC [WARN]",
        "s",
        String::new(),
    )
    .unwrap();
    assert_eq!(short.timestamp, "2025-09-01 21:19:32.000 UTC");
    assert_eq!(short.level, "WARN");
    assert_eq!(short.message, "");
    assert!(ReadLogsTool::parse_console_log_line(
        "2025-13-01 21:19:32.454 UTC [INFO] no such month",
        "s",
        String::new()
    )
    .is_none());
    assert!(ReadLogsTool::parse_console_log_line(
        "yesterday at noon [INFO] no date",
        "s",
        String::new()
    )
    .is_none());
    assert!(ReadLogsTool::parse_console_log_line("", "s", String::new()).is_none());
    assert!(ReadLogsTool::parse_console_log_line("one two three", "s", String::new()).is_none());
    assert!(ReadLogsTool::parse_console_log_line("a b c ][", "s", String::new()).is_none());
}

#[test]
fn read_logs_source_and_report() {
    use_log_source();
    let entry = |level: &str, message: &str, metadata: Vec<(&str, &str)>| {
        let mut e = vega::logging::LogEntry::new(
            String::new(),
            "2025-09-01 21:19:32.454 UTC".to_string(),
            vega::logging::LogLevel::Info,
            message.to_string(),
            "s".to_string(),
            None,
            None,
            None,
            None,
        );
        e.level = level.to_string();
        e.metadata = metadata.into_iter().map(|(k, v)| (k.to_string(), v.to_string())).collect();
        e
    };
    assert_eq!(
        ReadLogsTool::format_entries(&Vec::new(), "abc"),
        "No log entries found for session ID: abc"
    );
    let entries = vec![
        entry("INFO", "first", vec![]),
        entry("WARN", "second", vec![("k", "v"), ("a", "b")]),
    ];
    assert_eq!(
        ReadLogsTool::format_entries(&entries, "abc"),
        "Found 2 log entries for session abc:\n\n\
         2025-09-01 21:19:32.454 UTC [INFO] first\n\n\
         2025-09-01 21:19:32.454 UTC [WARN] second\n  Metadata: k=v a=b \n\n"
    );
}

fn use_log_source() {
    assert_eq!(ReadLogsTool::log_source("console"), LogSource::Nowhere);
    assert_eq!(ReadLogsTool::log_source(""), LogSource::Nowhere);
    assert_eq!(ReadLogsTool::log_source("file"), LogSource::File);
    assert_eq!(ReadLogsTool::log_source("console,file"), LogSource::File);
    assert_eq!(ReadLogsTool::log_source("file,vector"), LogSource::VectorStore);
    assert_eq!(ReadLogsTool::log_source("vector,console"), LogSource::VectorStore);
    assert_eq!(ReadLogsTool::log_source("files,vectors"), LogSource::Nowhere);
    assert_eq!(ReadLogsTool::log_source("console, file"), LogSource::Nowhere);
    assert_eq!(ReadLogsTool::log_source(",file,"), LogSource::File);
}

#[test]
fn binary_content_is_shown_in_hex() {
    assert_eq!(ReadFileTool::hex_preview(&[]), "\n(binary file, 0 bytes shown as hex)");
    assert_eq!(
        ReadFileTool::hex_preview(&[0x00, 0x0f, 0xa5, 0xff]),
        "00 0f a5 ff\n(binary file, 4 bytes shown as hex)"
    );
    let seventeen: Vec<u8> = (0..17).collect();
    assert_eq!(
        ReadFileTool::hex_preview(&seventeen),
        "00 01 02 03 04 05 06 07 08 09 0a 0b 0c 0d 0e 0f\n10\n(binary file, 17 bytes shown as hex)"
    );
    let long = vec![0xabu8; 1025];
    let preview = ReadFileTool::hex_preview(&long);
    assert!(preview.ends_with("\n... (binary file truncated, showing first 1024 bytes as hex)"));
    assert_eq!(preview.matches("ab").count(), 1024);
    assert_eq!(preview.lines().count(), 65);
    let exact = vec![1u8; 1024];
    assert!(ReadFileTool::hex_preview(&exact)
        .ends_with("01\n(binary file, 1024 bytes shown as hex)"));
}
