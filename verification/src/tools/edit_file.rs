//! The file editing tool: what it takes and gives, and the check of the
//! path before anything is written.

use super::ToolError;
use crate::text::{contains, contains_text, decimal, decimal_text, join_lines, joined};
use crate::text::{split_lines, starts_with, text_lines, texts};
use vstd::prelude::*;
use vstd::string::StringExecFns;

verus! {

/// Arguments of the file editing tool.
#[derive(Debug, Clone)]
pub struct EditFileArgs {
    pub path: String,
    pub content: String,
    pub create_if_missing: bool,
    pub backup: bool,
    pub encoding: Option<String>,
    /// First and last line to replace, counted from 1.
    pub line_range: Option<(usize, usize)>,
}

/// What was written.
#[derive(Debug, Clone)]
pub struct EditFileOutput {
    pub path: String,
    pub success: bool,
    pub bytes_written: u64,
    pub backup_path: Option<String>,
    pub created_new_file: bool,
    /// First and last line that were replaced.
    pub lines_modified: Option<(usize, usize)>,
}

/// The directories that are never written to, in the order in which they
/// are looked for.
pub open spec fn sensitive_paths() -> Seq<Seq<char>> {
    seq![
        "/etc"@,
        "/usr/bin"@,
        "/usr/sbin"@,
        "/bin"@,
        "/sbin"@,
        "/System"@,
        "/Library"@,
        "/Applications"@,
    ]
}

/// The first of the prefixes, from place `from` on, that the path begins
/// with.
pub open spec fn first_prefix_of(path: Seq<char>, prefixes: Seq<Seq<char>>, from: int) -> Option<
    Seq<char>,
>
    decreases prefixes.len() - from,
{
    if from < 0 || from >= prefixes.len() {
        None
    } else if prefixes[from].is_prefix_of(path) {
        Some(prefixes[from])
    } else {
        first_prefix_of(path, prefixes, from + 1)
    }
}

/// Why a path is refused.
pub ghost enum PathRefusal {
    /// The path holds `..`.
    Traversal,
    /// The path lies in this sensitive directory.
    Sensitive(Seq<char>),
}

/// Why a path is refused, if it is: for `..` anywhere in it, else for the
/// first sensitive directory that it begins with.
pub open spec fn path_refusal(path: Seq<char>) -> Option<PathRefusal> {
    if contains_text(path, ".."@) {
        Some(PathRefusal::Traversal)
    } else {
        match first_prefix_of(path, sensitive_paths(), 0) {
            Some(prefix) => Some(PathRefusal::Sensitive(prefix)),
            None => None,
        }
    }
}

/// Why an edit is refused before anything is written.
pub ghost enum EditRefusal {
    /// The file is not there, and is not to be created.
    Missing,
    /// The path is there and is no file.
    NotAFile,
    /// Lines of a file that is not there are to be replaced.
    RangeWithoutFile,
}

/// Why an edit is refused, if it is, given what is at the path.
pub open spec fn edit_refusal(args: EditFileArgs, exists: bool, is_file: bool) -> Option<
    EditRefusal,
> {
    if !exists && !args.create_if_missing {
        Some(EditRefusal::Missing)
    } else if exists && !is_file {
        Some(EditRefusal::NotAFile)
    } else if args.line_range.is_some() && !exists {
        Some(EditRefusal::RangeWithoutFile)
    } else {
        None
    }
}

/// The lines after those from `start_line` to `end_line`, counted from 1,
/// are replaced: the lines before the start, the new lines, and the lines
/// after the end, which is the last line where it reaches beyond it.
pub open spec fn replaced_lines(
    lines: Seq<Seq<char>>,
    new_lines: Seq<Seq<char>>,
    start_line: usize,
    end_line: usize,
) -> Seq<Seq<char>> {
    let end = if end_line <= lines.len() {
        end_line as int
    } else {
        lines.len() as int
    };
    lines.subrange(0, start_line - 1) + new_lines + lines.subrange(end, lines.len() as int)
}

/// The file editing tool.
#[derive(Debug, Clone, Copy)]
pub struct EditFileTool;

impl EditFileTool {
    /// The name under which the tool is offered.
    pub const NAME: &'static str = "edit_file";

    /// The tool.
    pub fn new() -> Self {
        EditFileTool
    }

    /// Checks a path before it is written to. A path that holds `..` is
    /// invalid input; a path in a sensitive directory is denied.
    pub fn validate_path(&self, path: &str) -> (r: Result<(), ToolError>)
        ensures
            match path_refusal(path@) {
                None => r is Ok,
                Some(PathRefusal::Traversal) => (r matches Err(ToolError::InvalidInput(text))
                    && text@ == "Path traversal (..) is not allowed"@),
                Some(PathRefusal::Sensitive(prefix)) => (r matches Err(
                    ToolError::PermissionDenied(text),
                ) && text@ == "Access to "@ + prefix + " is not allowed"@),
            },
    {
        if contains(path, "..") {
            return Err(ToolError::InvalidInput("Path traversal (..) is not allowed".to_string()));
        }
        let mut sensitive: Vec<&str> = Vec::new();
        sensitive.push("/etc");
        sensitive.push("/usr/bin");
        sensitive.push("/usr/sbin");
        sensitive.push("/bin");
        sensitive.push("/sbin");
        sensitive.push("/System");
        sensitive.push("/Library");
        sensitive.push("/Applications");
        let ghost all = sensitive_paths();
        assert(Seq::new(sensitive@.len(), |i: int| sensitive@[i]@) =~= all);
        let mut i: usize = 0;
        while i < sensitive.len()
            invariant
                i <= sensitive.len(),
                sensitive@.len() == all.len(),
                all == sensitive_paths(),
                !contains_text(path@, ".."@),
                forall|k: int| 0 <= k < sensitive@.len() ==> sensitive@[k]@ == all[k],
                first_prefix_of(path@, all, 0) == first_prefix_of(path@, all, i as int),
            decreases sensitive.len() - i,
        {
            if starts_with(path, sensitive[i]) {
                let mut text = "Access to ".to_string();
                text.append(sensitive[i]);
                text.append(" is not allowed");
                return Err(ToolError::PermissionDenied(text));
            }
            i += 1;
        }
        Ok(())
    }
}

impl EditFileTool {
    /// The name of the backup of a file.
    pub fn backup_path(path: &str) -> (r: String)
        ensures
            r@ == path@ + ".backup"@,
    {
        let mut text = path.to_string();
        text.append(".backup");
        text
    }

    /// Checks an edit against what is at the path, before anything is
    /// written.
    pub fn check_target(args: &EditFileArgs, exists: bool, is_file: bool) -> (r: Result<
        (),
        ToolError,
    >)
        ensures
            match edit_refusal(*args, exists, is_file) {
                None => r is Ok,
                Some(EditRefusal::Missing) => (r matches Err(ToolError::FileNotFound(text))
                    && text@ == "File '"@ + args.path@
                    + "' does not exist and create_if_missing is false"@),
                Some(EditRefusal::NotAFile) => (r matches Err(ToolError::InvalidInput(text))
                    && text@ == "Path '"@ + args.path@ + "' exists but is not a file"@),
                Some(EditRefusal::RangeWithoutFile) => (r matches Err(
                    ToolError::InvalidInput(text),
                ) && text@ == "Cannot perform line range edit on non-existent file"@),
            },
    {
        if !exists && !args.create_if_missing {
            let mut text = "File '".to_string();
            text.append(args.path.as_str());
            text.append("' does not exist and create_if_missing is false");
            return Err(ToolError::FileNotFound(text));
        }
        if exists && !is_file {
            let mut text = "Path '".to_string();
            text.append(args.path.as_str());
            text.append("' exists but is not a file");
            return Err(ToolError::InvalidInput(text));
        }
        if args.line_range.is_some() && !exists {
            return Err(
                ToolError::InvalidInput(
                    "Cannot perform line range edit on non-existent file".to_string(),
                ),
            );
        }
        Ok(())
    }

    /// Replaces lines of a text: the new text, and the first and last
    /// line that hold the new content. A start line of 0, or more than one
    /// beyond the last line, is refused.
    pub fn replace_lines(existing: &str, content: &str, start_line: usize, end_line: usize) -> (r:
        Result<(String, (usize, usize)), ToolError>)
        ensures
            match r {
                Ok((text, modified)) => {
                    let lines = text_lines(existing@);
                    let new_lines = text_lines(content@);
                    let result = replaced_lines(lines, new_lines, start_line, end_line);
                    &&& 1 <= start_line <= lines.len() + 1
                    &&& text@ == joined(result, result.len())
                    &&& modified.0 == start_line
                    &&& modified.1 == start_line + new_lines.len() - 1
                },
                Err(e) => {
                    let lines = text_lines(existing@);
                    let new_lines = text_lines(content@);
                    if start_line == 0 || start_line > lines.len() + 1 {
                        e matches ToolError::InvalidInput(text) && text@ == "Invalid start line: "@
                            + decimal_text(start_line as nat) + ". File has "@ + decimal_text(
                            lines.len(),
                        ) + " lines (1-indexed)"@
                    } else {
                        start_line + new_lines.len() > usize::MAX && (e matches ToolError::InvalidInput(
                            text,
                        ) && text@ == "Too many lines"@)
                    }
                },
            },
    {
        let lines = split_lines(existing);
        let total = lines.len();
        if start_line == 0 || start_line - 1 > total {
            let mut text = "Invalid start line: ".to_string();
            text.append(decimal(start_line as u64).as_str());
            text.append(". File has ");
            text.append(decimal(total as u64).as_str());
            text.append(" lines (1-indexed)");
            return Err(ToolError::InvalidInput(text));
        }
        let new_lines = split_lines(content);
        let last = match start_line.checked_add(new_lines.len()) {
            Some(n) => n - 1,
            None => {
                return Err(ToolError::InvalidInput("Too many lines".to_string()));
            },
        };
        let end = if end_line <= total {
            end_line
        } else {
            total
        };
        let first = start_line - 1;
        let mut result: Vec<String> = Vec::new();
        let mut i: usize = 0;
        while i < first
            invariant
                i <= first <= lines.len(),
                result@.len() == i,
                forall|x: int| 0 <= x < i ==> result@[x]@ == lines@[x]@,
            decreases first - i,
        {
            result.push(lines[i].clone());
            i += 1;
        }
        let mut j: usize = 0;
        while j < new_lines.len()
            invariant
                j <= new_lines.len(),
                first <= lines.len(),
                result@.len() == first + j,
                forall|x: int| 0 <= x < first ==> result@[x]@ == lines@[x]@,
                forall|p: int|
                    first <= p < first + j ==> (#[trigger] result@[p])@ == new_lines@[p - first]@,
            decreases new_lines.len() - j,
        {
            result.push(new_lines[j].clone());
            j += 1;
        }
        let mut k: usize = end;
        while k < lines.len()
            invariant
                end <= k <= lines.len(),
                first <= lines.len(),
                result@.len() == first + new_lines.len() + (k - end),
                forall|x: int| 0 <= x < first ==> result@[x]@ == lines@[x]@,
                forall|p: int|
                    first <= p < first + new_lines.len() ==> (#[trigger] result@[p])@
                        == new_lines@[p - first]@,
                forall|p: int|
                    first + new_lines.len() <= p < result@.len() ==> (#[trigger] result@[p])@
                        == lines@[end + (p - first - new_lines.len())]@,
            decreases lines.len() - k,
        {
            result.push(lines[k].clone());
            k += 1;
        }
        proof {
            let old_lines = text_lines(existing@);
            let fresh = text_lines(content@);
            assert(texts(lines@) == old_lines);
            assert(texts(new_lines@) == fresh);
            let expected = replaced_lines(old_lines, fresh, start_line, end_line);
            assert(expected.len() == result@.len());
            assert forall|x: int| 0 <= x < result@.len() implies texts(result@)[x]
                == expected[x] by {
                assert(texts(result@)[x] == result@[x]@);
                if x < first {
                    assert(texts(lines@)[x] == lines@[x]@);
                } else if x < first + new_lines.len() {
                    assert(texts(new_lines@)[x - first] == new_lines@[x - first]@);
                } else {
                    let y = x - first - new_lines.len();
                    assert(texts(lines@)[end + y] == lines@[end + y]@);
                }
            }
            assert(texts(result@) =~= expected);
        }
        Ok((join_lines(&result), (start_line, last)))
    }
}

impl Default for EditFileTool {
    fn default() -> Self {
        EditFileTool::new()
    }
}

} // verus!
