//! The shell tool: what it takes and gives, and the check that keeps
//! plainly destructive commands from running.

use super::ToolError;
use crate::text::{contains, contains_text, lowercased, to_lowercase};
use vstd::prelude::*;
use vstd::string::StringExecFns;

verus! {

/// Arguments of the shell tool.
#[derive(Debug, Clone)]
pub struct BashArgs {
    pub command: String,
    pub timeout_seconds: u64,
    pub working_directory: Option<String>,
}

/// The timeout that applies where none is given, in seconds.
pub fn default_timeout() -> (r: u64)
    ensures
        r == 30,
{
    30
}

/// What a command gave back.
#[derive(Debug, Clone)]
pub struct BashOutput {
    pub stdout: String,
    pub stderr: String,
    pub exit_code: i32,
    pub command: String,
    pub success: bool,
}

/// The patterns that no command may contain, in the order in which they
/// are looked for.
pub open spec fn dangerous_patterns() -> Seq<Seq<char>> {
    seq![
        "rm -rf /"@,
        ":(){ :|:& };:"@,
        "dd if=/dev/zero"@,
        "mkfs"@,
        "format"@,
        "> /dev/"@,
        "shutdown"@,
        "reboot"@,
        "halt"@,
    ]
}

/// The first of the patterns, from place `from` on, that the text
/// contains.
pub open spec fn first_pattern_in(text: Seq<char>, patterns: Seq<Seq<char>>, from: int) -> Option<
    Seq<char>,
>
    decreases patterns.len() - from,
{
    if from < 0 || from >= patterns.len() {
        None
    } else if contains_text(text, patterns[from]) {
        Some(patterns[from])
    } else {
        first_pattern_in(text, patterns, from + 1)
    }
}

/// The dangerous pattern for which a command is refused, if any: the
/// first one that the command holds once it is put in lower case.
pub open spec fn refused_for(command: Seq<char>) -> Option<Seq<char>> {
    first_pattern_in(lowercased(command), dangerous_patterns(), 0)
}

/// The shell tool.
#[derive(Debug, Clone, Copy)]
pub struct BashTool;

impl BashTool {
    /// The name under which the tool is offered.
    pub const NAME: &'static str = "bash";

    /// The tool.
    pub fn new() -> Self {
        BashTool
    }

    /// Checks a command before it runs. A command that holds one of the
    /// dangerous patterns, in any case, is refused as invalid input with
    /// the first such pattern named.
    pub fn check_command(&self, command: &str) -> (r: Result<(), ToolError>)
        ensures
            match r {
                Ok(_) => refused_for(command@).is_none(),
                Err(e) => (e matches ToolError::InvalidInput(text) && refused_for(command@)
                    matches Some(pattern) && text@
                    == "Command contains potentially dangerous pattern: "@ + pattern),
            },
    {
        let mut patterns: Vec<&str> = Vec::new();
        patterns.push("rm -rf /");
        patterns.push(":(){ :|:& };:");
        patterns.push("dd if=/dev/zero");
        patterns.push("mkfs");
        patterns.push("format");
        patterns.push("> /dev/");
        patterns.push("shutdown");
        patterns.push("reboot");
        patterns.push("halt");
        let ghost all = dangerous_patterns();
        assert(Seq::new(patterns@.len(), |i: int| patterns@[i]@) =~= all);
        let lower = to_lowercase(command);
        let mut i: usize = 0;
        while i < patterns.len()
            invariant
                i <= patterns.len(),
                patterns@.len() == all.len(),
                all == dangerous_patterns(),
                forall|k: int| 0 <= k < patterns@.len() ==> patterns@[k]@ == all[k],
                lower@ == lowercased(command@),
                refused_for(command@) == first_pattern_in(lower@, all, i as int),
            decreases patterns.len() - i,
        {
            if contains(lower.as_str(), patterns[i]) {
                let mut text = "Command contains potentially dangerous pattern: ".to_string();
                text.append(patterns[i]);
                return Err(ToolError::InvalidInput(text));
            }
            i += 1;
        }
        Ok(())
    }

    /// The result of a command that ran: what it wrote, and how it ended.
    /// A command that ended without an exit code counts as ended with -1.
    pub fn output(
        command: &str,
        stdout: String,
        stderr: String,
        exit_code: Option<i32>,
        success: bool,
    ) -> (r: BashOutput)
        ensures
            r.stdout == stdout,
            r.stderr == stderr,
            r.exit_code == match exit_code {
                Some(code) => code,
                None => -1i32,
            },
            r.command@ == command@,
            r.success == success,
    {
        BashOutput {
            stdout,
            stderr,
            exit_code: match exit_code {
                Some(code) => code,
                None => -1,
            },
            command: command.to_string(),
            success,
        }
    }
}

impl Default for BashTool {
    fn default() -> Self {
        BashTool::new()
    }
}

} // verus!
