//! The file reading tool: what it takes and gives, and how it tells
//! binary content from text.

use super::ToolError;
use crate::text::{decimal, decimal_text, join_lines, joined, split_lines, text_lines, texts};
use vstd::prelude::*;
use vstd::string::StringExecFns;

verus! {

/// Arguments of the file reading tool.
#[derive(Debug, Clone)]
pub struct ReadFileArgs {
    pub path: String,
    pub encoding: Option<String>,
    pub max_size_mb: Option<u64>,
    /// First and last line to read, counted from 1.
    pub line_range: Option<(usize, usize)>,
}

/// What was read.
#[derive(Debug, Clone)]
pub struct ReadFileOutput {
    pub content: String,
    pub path: String,
    pub size_bytes: u64,
    pub line_count: usize,
    pub encoding_used: String,
    pub is_binary: bool,
    pub truncated: bool,
}

/// Whether a byte is printable ASCII, a tab, a line feed or a carriage
/// return.
pub open spec fn is_printable(b: u8) -> bool {
    (32 <= b && b <= 126) || b == 9 || b == 10 || b == 13
}

/// The number of zero bytes among the first `n` bytes.
pub open spec fn zero_count(content: Seq<u8>, n: int) -> int
    decreases n,
{
    if n <= 0 {
        0
    } else {
        zero_count(content, n - 1) + if content[n - 1] == 0 {
            1int
        } else {
            0int
        }
    }
}

/// The number of printable bytes among the first `n` bytes.
pub open spec fn printable_count(content: Seq<u8>, n: int) -> int
    decreases n,
{
    if n <= 0 {
        0
    } else {
        printable_count(content, n - 1) + if is_printable(content[n - 1]) {
            1int
        } else {
            0int
        }
    }
}

/// Whether content counts as binary: it holds a zero byte, or fewer than
/// seven in ten of its bytes are printable. Empty content is text.
pub open spec fn is_binary(content: Seq<u8>) -> bool {
    zero_count(content, content.len() as int) > 0 || 10 * printable_count(
        content,
        content.len() as int,
    ) < 7 * content.len()
}

/// The largest file that is read, in bytes: the given number of
/// mebibytes, ten where none is given, and at most what 64 bits hold.
pub open spec fn size_limit(max_size_mb: Option<u64>) -> u64 {
    let mb = match max_size_mb {
        Some(mb) => mb,
        None => 10,
    };
    if mb * 1048576 <= u64::MAX {
        (mb * 1048576) as u64
    } else {
        u64::MAX
    }
}

/// The lines from place `from` up to place `to`.
pub open spec fn line_span(lines: Seq<Seq<char>>, from: int, to: int) -> Seq<Seq<char>> {
    if 0 <= from <= to <= lines.len() {
        lines.subrange(from, to)
    } else {
        Seq::empty()
    }
}

/// The text that tells of a start line outside the file.
pub open spec fn bad_start_text(start_line: usize, total: nat) -> Seq<char> {
    "Invalid start line: "@ + decimal_text(start_line as nat) + ". File has "@ + decimal_text(
        total,
    ) + " lines (1-indexed)"@
}

/// What is shown of a text: the text, the number of its lines, and whether
/// lines after the shown ones were left out.
pub ghost struct Selection {
    pub content: Seq<char>,
    pub line_count: nat,
    pub truncated: bool,
}

/// What a range of lines selects from a text. Lines are counted from 1;
/// the range ends at the last line where it reaches beyond it. A start
/// line of 0 or beyond the last line is refused.
pub open spec fn selection(content: Seq<char>, line_range: Option<(usize, usize)>) -> Result<
    Selection,
    Seq<char>,
> {
    let lines = text_lines(content);
    match line_range {
        None => Ok(Selection { content, line_count: lines.len(), truncated: false }),
        Some((start_line, end_line)) => if start_line == 0 || start_line > lines.len() {
            Err(bad_start_text(start_line, lines.len()))
        } else {
            let end = if end_line <= lines.len() {
                end_line as int
            } else {
                lines.len() as int
            };
            let shown = line_span(lines, start_line - 1, end);
            Ok(
                Selection {
                    content: joined(shown, shown.len()),
                    line_count: lines.len(),
                    truncated: end_line < lines.len(),
                },
            )
        },
    }
}

/// The text of a hexadecimal digit.
pub open spec fn hex_digit_text(d: nat) -> Seq<char> {
    if d < 10 {
        crate::text::digit_text(d)
    } else if d == 10 {
        "a"@
    } else if d == 11 {
        "b"@
    } else if d == 12 {
        "c"@
    } else if d == 13 {
        "d"@
    } else if d == 14 {
        "e"@
    } else {
        "f"@
    }
}

/// What stands before byte `i` of a preview: nothing before the first, a
/// line feed before every sixteenth, a space before the others.
pub open spec fn hex_separator(i: nat) -> Seq<char> {
    if i == 0 {
        Seq::empty()
    } else if i % 16 == 0 {
        "\n"@
    } else {
        " "@
    }
}

/// The first `n` bytes in hexadecimal, two digits each, sixteen to a
/// line.
pub open spec fn hex_dump(bytes: Seq<u8>, n: nat) -> Seq<char>
    decreases n,
{
    if n == 0 || n > bytes.len() {
        Seq::empty()
    } else {
        hex_dump(bytes, (n - 1) as nat) + hex_separator((n - 1) as nat) + hex_digit_text(
            (bytes[n - 1] / 16) as nat,
        ) + hex_digit_text((bytes[n - 1] % 16) as nat)
    }
}

/// What is shown of binary content: its first 1024 bytes in hexadecimal,
/// and a note of how many bytes that is.
pub open spec fn binary_preview(bytes: Seq<u8>) -> Seq<char> {
    if bytes.len() > 1024 {
        hex_dump(bytes, 1024) + "\n... (binary file truncated, showing first "@ + decimal_text(
            1024,
        ) + " bytes as hex)"@
    } else {
        hex_dump(bytes, bytes.len()) + "\n(binary file, "@ + decimal_text(bytes.len())
            + " bytes shown as hex)"@
    }
}

/// The file reading tool.
#[derive(Debug, Clone, Copy)]
pub struct ReadFileTool;

impl ReadFileTool {
    /// The name under which the tool is offered.
    pub const NAME: &'static str = "read_file";

    /// The tool.
    pub fn new() -> Self {
        ReadFileTool
    }

    /// The largest file that is read, in bytes.
    pub fn max_size_bytes(max_size_mb: Option<u64>) -> (r: u64)
        ensures
            r == size_limit(max_size_mb),
    {
        let mb = match max_size_mb {
            Some(mb) => mb,
            None => 10,
        };
        if mb <= 17592186044415 {
            mb * 1048576
        } else {
            18446744073709551615
        }
    }

    /// Checks the size of a file against the limit.
    pub fn check_size(size_bytes: u64, max_size_mb: Option<u64>) -> (r: Result<(), ToolError>)
        ensures
            match r {
                Ok(_) => size_bytes <= size_limit(max_size_mb),
                Err(e) => size_bytes > size_limit(max_size_mb) && (e matches ToolError::InvalidInput(
                    text,
                ) && text@ == "File size ("@ + decimal_text(size_bytes as nat)
                    + " bytes) exceeds maximum allowed size ("@ + decimal_text(
                    size_limit(max_size_mb) as nat,
                ) + " bytes)"@),
            },
    {
        let limit = Self::max_size_bytes(max_size_mb);
        if size_bytes > limit {
            let mut text = "File size (".to_string();
            text.append(decimal(size_bytes).as_str());
            text.append(" bytes) exceeds maximum allowed size (");
            text.append(decimal(limit).as_str());
            text.append(" bytes)");
            Err(ToolError::InvalidInput(text))
        } else {
            Ok(())
        }
    }

    /// Selects the lines of a text that a range asks for: the text to
    /// show, the number of lines of the whole text, and whether lines after
    /// the range were left out. Without a range the whole text is shown.
    pub fn select_lines(content: String, line_range: Option<(usize, usize)>) -> (r: Result<
        (String, usize, bool),
        ToolError,
    >)
        requires
            line_range matches Some((start_line, end_line)) ==> start_line <= end_line + 1,
        ensures
            match r {
                Ok((text, line_count, truncated)) => selection(content@, line_range) == Ok::<
                    Selection,
                    Seq<char>,
                >(Selection { content: text@, line_count: line_count as nat, truncated }),
                Err(e) => (e matches ToolError::InvalidInput(text) && selection(
                    content@,
                    line_range,
                ) == Err::<Selection, Seq<char>>(text@)),
            },
    {
        let lines = split_lines(content.as_str());
        let total = lines.len();
        match line_range {
            None => Ok((content, total, false)),
            Some((start_line, end_line)) => {
                if start_line == 0 || start_line > total {
                    let mut text = "Invalid start line: ".to_string();
                    text.append(decimal(start_line as u64).as_str());
                    text.append(". File has ");
                    text.append(decimal(total as u64).as_str());
                    text.append(" lines (1-indexed)");
                    return Err(ToolError::InvalidInput(text));
                }
                let end = if end_line <= total {
                    end_line
                } else {
                    total
                };
                let mut shown: Vec<String> = Vec::new();
                let mut i: usize = start_line - 1;
                while i < end
                    invariant
                        start_line - 1 <= i <= end,
                        end <= lines.len(),
                        start_line >= 1,
                        shown@.len() == i - (start_line - 1),
                        forall|k: int|
                            0 <= k < shown@.len() ==> shown@[k]@ == lines@[start_line - 1 + k]@,
                    decreases end - i,
                {
                    shown.push(lines[i].clone());
                    i += 1;
                }
                assert(texts(shown@) =~= line_span(
                    text_lines(content@),
                    start_line - 1,
                    end as int,
                )) by {
                    assert(texts(lines@) == text_lines(content@));
                    assert forall|k: int| 0 <= k < shown@.len() implies texts(shown@)[k]
                        == text_lines(content@)[start_line - 1 + k] by {
                        assert(texts(lines@)[start_line - 1 + k] == lines@[start_line - 1 + k]@);
                    }
                }
                Ok((join_lines(&shown), total, end_line < total))
            },
        }
    }

    /// The text of a hexadecimal digit.
    fn hex_digit(d: u8) -> (r: &'static str)
        requires
            d < 16,
        ensures
            r@ == hex_digit_text(d as nat),
    {
        if d == 0 {
            "0"
        } else if d == 1 {
            "1"
        } else if d == 2 {
            "2"
        } else if d == 3 {
            "3"
        } else if d == 4 {
            "4"
        } else if d == 5 {
            "5"
        } else if d == 6 {
            "6"
        } else if d == 7 {
            "7"
        } else if d == 8 {
            "8"
        } else if d == 9 {
            "9"
        } else if d == 10 {
            "a"
        } else if d == 11 {
            "b"
        } else if d == 12 {
            "c"
        } else if d == 13 {
            "d"
        } else if d == 14 {
            "e"
        } else {
            "f"
        }
    }

    /// What is shown of binary content.
    pub fn hex_preview(content: &[u8]) -> (r: String)
        ensures
            r@ == binary_preview(content@),
    {
        let shown = if content.len() > 1024 {
            1024
        } else {
            content.len()
        };
        let mut text = String::new();
        let mut i: usize = 0;
        assert(text@ =~= hex_dump(content@, 0));
        while i < shown
            invariant
                i <= shown <= content.len(),
                text@ == hex_dump(content@, i as nat),
            decreases shown - i,
        {
            if i > 0 {
                if i % 16 == 0 {
                    text.append("\n");
                } else {
                    text.append(" ");
                }
            }
            let b = content[i];
            text.append(Self::hex_digit(b / 16));
            text.append(Self::hex_digit(b % 16));
            i += 1;
            assert(text@ =~= hex_dump(content@, i as nat));
        }
        if content.len() > shown {
            text.append("\n... (binary file truncated, showing first ");
            text.append(decimal(shown as u64).as_str());
            text.append(" bytes as hex)");
        } else {
            text.append("\n(binary file, ");
            text.append(decimal(content.len() as u64).as_str());
            text.append(" bytes shown as hex)");
        }
        text
    }

    /// Whether content counts as binary.
    pub fn is_binary_content(&self, content: &[u8]) -> (r: bool)
        ensures
            r == is_binary(content@),
    {
        let mut zeros: usize = 0;
        let mut printable: usize = 0;
        let mut i: usize = 0;
        while i < content.len()
            invariant
                i <= content.len(),
                zeros == zero_count(content@, i as int),
                printable == printable_count(content@, i as int),
                zeros <= i,
                printable <= i,
            decreases content.len() - i,
        {
            let b = content[i];
            if b == 0 {
                zeros += 1;
            }
            if (b >= 32 && b <= 126) || b == 9 || b == 10 || b == 13 {
                printable += 1;
            }
            i += 1;
        }
        if zeros > 0 {
            return true;
        }
        (printable as u128) * 10 < (content.len() as u128) * 7
    }
}

impl Default for ReadFileTool {
    fn default() -> Self {
        ReadFileTool::new()
    }
}

} // verus!
