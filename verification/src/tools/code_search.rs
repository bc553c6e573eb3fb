//! The code search tool: what it takes and gives, and how a line of the
//! search program's output is read.

use crate::text::{char_from, decimal, decimal_text, find_char, parse_usize, parsed_usize};
use crate::text::texts;
use vstd::prelude::*;
use vstd::string::StrSliceExecFns;

verus! {

/// Arguments of the code search tool.
#[derive(Debug, Clone)]
pub struct CodeSearchArgs {
    pub pattern: String,
    pub path: String,
    pub case_sensitive: bool,
    pub whole_word: bool,
    pub file_type: Option<String>,
    pub max_results: usize,
    pub context_lines: Option<usize>,
}

/// The number of results that is asked for where none is given.
pub fn default_max_results() -> (r: usize)
    ensures
        r == 50,
{
    50
}

/// One place where the pattern was found.
#[derive(Debug, Clone)]
pub struct CodeSearchMatch {
    pub file_path: String,
    pub line_number: usize,
    pub line_content: String,
    pub column: Option<usize>,
}

/// The places where the pattern was found.
#[derive(Debug, Clone)]
pub struct CodeSearchOutput {
    pub matches: Vec<CodeSearchMatch>,
    pub pattern: String,
    pub path: String,
    pub total_matches: usize,
    pub files_searched: usize,
}

pub ghost struct MatchValue {
    pub file_path: Seq<char>,
    pub line_number: usize,
    pub line_content: Seq<char>,
    pub column: Option<usize>,
}

impl View for CodeSearchMatch {
    type V = MatchValue;

    open spec fn view(&self) -> MatchValue {
        MatchValue {
            file_path: self.file_path@,
            line_number: self.line_number,
            line_content: self.line_content@,
            column: self.column,
        }
    }
}

/// The arguments with which the search program is started: pattern and
/// path, the flags that shape its output, and then, each where it is asked
/// for, the flags for case, whole words, file type and context, and the
/// limit of matches.
pub open spec fn search_arguments(args: CodeSearchArgs) -> Seq<Seq<char>> {
    let fixed = seq![
        args.pattern@,
        args.path@,
        "--line-number"@,
        "--column"@,
        "--no-heading"@,
        "--with-filename"@,
    ];
    let with_case = if args.case_sensitive {
        fixed
    } else {
        fixed.push("--ignore-case"@)
    };
    let with_word = if args.whole_word {
        with_case.push("--word-regexp"@)
    } else {
        with_case
    };
    let with_type = match args.file_type {
        Some(kind) => with_word.push("--type"@).push(kind@),
        None => with_word,
    };
    let with_context = match args.context_lines {
        Some(n) => with_type.push("--context"@).push(decimal_text(n as nat)),
        None => with_type,
    };
    with_context.push("--max-count"@).push(decimal_text(args.max_results as nat))
}

/// The place of the first colon at or after `from`, or the length of the
/// text where there is none.
pub open spec fn colon_from(s: Seq<char>, from: int) -> int {
    char_from(s, ':', from)
}

/// What a line of output says. The line is cut at its first three colons
/// at most: `file:line:column:content`, or `file:line:content` where there
/// are only two. The line number must be a number; a column that is none
/// is left out. A line with fewer than two colons says nothing.
pub open spec fn ripgrep_match(s: Seq<char>) -> Option<MatchValue> {
    let a = colon_from(s, 0);
    let b = colon_from(s, a + 1);
    let c = colon_from(s, b + 1);
    if a >= s.len() || b >= s.len() {
        None
    } else {
        match parsed_usize(s.subrange(a + 1, b)) {
            None => None,
            Some(line_number) => if c >= s.len() {
                Some(
                    MatchValue {
                        file_path: s.subrange(0, a),
                        line_number,
                        line_content: s.subrange(b + 1, s.len() as int),
                        column: None,
                    },
                )
            } else {
                Some(
                    MatchValue {
                        file_path: s.subrange(0, a),
                        line_number,
                        line_content: s.subrange(c + 1, s.len() as int),
                        column: parsed_usize(s.subrange(b + 1, c)),
                    },
                )
            },
        }
    }
}

/// The value of an optional match.
pub open spec fn optional_match(m: Option<CodeSearchMatch>) -> Option<MatchValue> {
    match m {
        Some(x) => Some(x@),
        None => None,
    }
}

/// The code search tool.
#[derive(Debug, Clone, Copy)]
pub struct CodeSearchTool;

impl CodeSearchTool {
    /// The name under which the tool is offered.
    pub const NAME: &'static str = "code_search";

    /// The tool.
    pub fn new() -> Self {
        CodeSearchTool
    }

    /// The arguments with which the search program is started.
    pub fn ripgrep_args(args: &CodeSearchArgs) -> (r: Vec<String>)
        ensures
            texts(r@) == search_arguments(*args),
    {
        let mut r: Vec<String> = Vec::new();
        r.push(args.pattern.clone());
        r.push(args.path.clone());
        r.push("--line-number".to_string());
        r.push("--column".to_string());
        r.push("--no-heading".to_string());
        r.push("--with-filename".to_string());
        assert(texts(r@) =~= seq![
            args.pattern@,
            args.path@,
            "--line-number"@,
            "--column"@,
            "--no-heading"@,
            "--with-filename"@,
        ]);
        if !args.case_sensitive {
            let ghost before = texts(r@);
            r.push("--ignore-case".to_string());
            assert(texts(r@) =~= before.push("--ignore-case"@));
        }
        if args.whole_word {
            let ghost before = texts(r@);
            r.push("--word-regexp".to_string());
            assert(texts(r@) =~= before.push("--word-regexp"@));
        }
        match &args.file_type {
            Some(kind) => {
                let ghost before = texts(r@);
                r.push("--type".to_string());
                r.push(kind.clone());
                assert(texts(r@) =~= before.push("--type"@).push(kind@));
            },
            None => {},
        }
        match args.context_lines {
            Some(n) => {
                let ghost before = texts(r@);
                r.push("--context".to_string());
                r.push(decimal(n as u64));
                assert(texts(r@) =~= before.push("--context"@).push(decimal_text(n as nat)));
            },
            None => {},
        }
        let ghost before = texts(r@);
        r.push("--max-count".to_string());
        r.push(decimal(args.max_results as u64));
        assert(texts(r@) =~= before.push("--max-count"@).push(
            decimal_text(args.max_results as nat),
        ));
        r
    }

    /// Reads one line of the search program's output.
    pub fn parse_ripgrep_line(&self, line: &str) -> (r: Option<CodeSearchMatch>)
        ensures
            optional_match(r) == ripgrep_match(line@),
    {
        let len = line.unicode_len();
        let a = find_char(line, ':', 0);
        if a >= len {
            return None;
        }
        let b = find_char(line, ':', a + 1);
        if b >= len {
            return None;
        }
        let c = find_char(line, ':', b + 1);
        let line_number = match parse_usize(line.substring_char(a + 1, b)) {
            Some(n) => n,
            None => {
                return None;
            },
        };
        let file_path = line.substring_char(0, a).to_string();
        if c >= len {
            Some(
                CodeSearchMatch {
                    file_path,
                    line_number,
                    line_content: line.substring_char(b + 1, len).to_string(),
                    column: None,
                },
            )
        } else {
            Some(
                CodeSearchMatch {
                    file_path,
                    line_number,
                    line_content: line.substring_char(c + 1, len).to_string(),
                    column: parse_usize(line.substring_char(b + 1, c)),
                },
            )
        }
    }
}

impl Default for CodeSearchTool {
    fn default() -> Self {
        CodeSearchTool::new()
    }
}

} // verus!
