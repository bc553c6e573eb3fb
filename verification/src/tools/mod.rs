//! The tools that the agent can use, as far as they are decided without
//! touching the system: their arguments and results, and the checks made
//! before anything runs.

pub mod bash;
pub mod code_search;
pub mod confirmed;
pub mod edit_file;
pub mod list_files;
pub mod read_file;
pub mod read_logs;
pub mod web_search;

pub use bash::BashTool;
pub use code_search::CodeSearchTool;
pub use confirmed::{ConfirmedBashTool, ConfirmedEditFileTool};
pub use edit_file::EditFileTool;
pub use list_files::ListFilesTool;
pub use read_file::ReadFileTool;
pub use read_logs::ReadLogsTool;
pub use web_search::WebSearchTool;

use vstd::prelude::*;
use vstd::string::StringExecFns;

verus! {

/// What can go wrong in a tool.
#[derive(Debug)]
pub enum ToolError {
    /// An input or output operation failed, with the system's account.
    Io(String),
    /// An HTTP request failed.
    Http(String),
    /// JSON could not be read or written.
    Json(String),
    /// A command could not be run.
    Command(String),
    /// The file or directory does not exist.
    FileNotFound(String),
    /// The operation is not allowed.
    PermissionDenied(String),
    /// The arguments are not acceptable.
    InvalidInput(String),
}

impl ToolError {
    /// The error in words.
    pub open spec fn spec_message(self) -> Seq<char> {
        match self {
            ToolError::Io(e) => "IO error: "@ + e@,
            ToolError::Http(e) => "HTTP error: "@ + e@,
            ToolError::Json(e) => "JSON error: "@ + e@,
            ToolError::Command(e) => "Command execution failed: "@ + e@,
            ToolError::FileNotFound(e) => "File not found: "@ + e@,
            ToolError::PermissionDenied(e) => "Permission denied: "@ + e@,
            ToolError::InvalidInput(e) => "Invalid input: "@ + e@,
        }
    }

    /// The error in words.
    pub fn message(&self) -> (r: String)
        ensures
            r@ == self.spec_message(),
    {
        let (prefix, detail) = match self {
            ToolError::Io(e) => ("IO error: ", e),
            ToolError::Http(e) => ("HTTP error: ", e),
            ToolError::Json(e) => ("JSON error: ", e),
            ToolError::Command(e) => ("Command execution failed: ", e),
            ToolError::FileNotFound(e) => ("File not found: ", e),
            ToolError::PermissionDenied(e) => ("Permission denied: ", e),
            ToolError::InvalidInput(e) => ("Invalid input: ", e),
        };
        let mut text = prefix.to_string();
        text.append(detail.as_str());
        text
    }
}

/// Any one of the tools.
#[derive(Debug)]
pub enum AnyTool {
    WebSearch(WebSearchTool),
    Bash(BashTool),
    CodeSearch(CodeSearchTool),
    ReadFile(ReadFileTool),
    EditFile(EditFileTool),
    ListFiles(ListFilesTool),
    ReadLogs(ReadLogsTool),
}

/// All the tools, one of each kind.
pub fn create_all_tools() -> (tools: Vec<AnyTool>)
    ensures
        tools@.len() == 7,
        tools@[0] is WebSearch,
        tools@[1] is Bash,
        tools@[2] is CodeSearch,
        tools@[3] is ReadFile,
        tools@[4] is EditFile,
        tools@[5] is ListFiles,
        tools@[6] is ReadLogs,
{
    let mut tools: Vec<AnyTool> = Vec::new();
    tools.push(AnyTool::WebSearch(WebSearchTool::new()));
    tools.push(AnyTool::Bash(BashTool::new()));
    tools.push(AnyTool::CodeSearch(CodeSearchTool::new()));
    tools.push(AnyTool::ReadFile(ReadFileTool::new()));
    tools.push(AnyTool::EditFile(EditFileTool::new()));
    tools.push(AnyTool::ListFiles(ListFilesTool::new()));
    tools.push(AnyTool::ReadLogs(ReadLogsTool::new()));
    tools
}

} // verus!
