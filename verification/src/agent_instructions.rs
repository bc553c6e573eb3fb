//! Instruction files for the agent: `VEGA.md` and `AGENTS.md`.
//!
//! The files are looked for in the starting directory and then in each
//! directory above it. In one directory `VEGA.md` goes before `AGENTS.md`;
//! the first file found is the one that is loaded.

use crate::text::{file_name, same_text};
use vstd::prelude::*;
use vstd::string::{StrSliceExecFns, StringExecFns};

verus! {

/// The kind of instruction file.
#[derive(Debug, Clone, Copy, PartialEq, Eq, Structural)]
pub enum InstructionFileType {
    /// The general `AGENTS.md`.
    Agents,
    /// The agent's own `VEGA.md`.
    Vega,
}

impl InstructionFileType {
    /// The kind of file that a file name stands for.
    pub fn of_file_name(name: Option<&str>) -> (r: InstructionFileType)
        ensures
            r == kind_of_file_name(
                match name {
                    Some(n) => Some(n@),
                    None => None,
                },
            ),
    {
        match name {
            Some(n) => if same_text(n, "VEGA.md") {
                InstructionFileType::Vega
            } else {
                InstructionFileType::Agents
            },
            None => InstructionFileType::Agents,
        }
    }

    /// The file name of this kind.
    pub open spec fn spec_filename(self) -> Seq<char> {
        match self {
            InstructionFileType::Agents => "AGENTS.md"@,
            InstructionFileType::Vega => "VEGA.md"@,
        }
    }

    /// The file name of this kind.
    pub fn filename(&self) -> (r: &'static str)
        ensures
            r@ == self.spec_filename(),
    {
        match self {
            InstructionFileType::Agents => "AGENTS.md",
            InstructionFileType::Vega => "VEGA.md",
        }
    }
}

/// Instructions as they were loaded: the text, where it came from, and the
/// kind of file.
#[derive(Debug, Clone)]
pub struct AgentInstructions {
    pub content: String,
    pub source_path: String,
    pub file_type: InstructionFileType,
}

/// What the search saw in one directory.
#[derive(Debug, Clone)]
pub struct DirectoryProbe {
    /// The directory.
    pub directory: String,
    /// Whether it holds a file `VEGA.md`.
    pub has_vega: bool,
    /// Whether it holds a file `AGENTS.md`.
    pub has_agents: bool,
}

/// The first of the directories, from place `from` on, that holds an
/// instruction file; the number of directories where none does.
pub open spec fn first_with_file(probes: Seq<DirectoryProbe>, from: int) -> int
    decreases probes.len() - from,
{
    if from < 0 || from >= probes.len() {
        probes.len() as int
    } else if probes[from].has_vega || probes[from].has_agents {
        from
    } else {
        first_with_file(probes, from + 1)
    }
}

/// The file that a search finds: the place of its directory among those
/// searched, and its kind.
pub open spec fn discovered(probes: Seq<DirectoryProbe>) -> Option<(usize, InstructionFileType)> {
    let i = first_with_file(probes, 0);
    if i < probes.len() {
        Some(
            (
                i as usize,
                if probes[i].has_vega {
                    InstructionFileType::Vega
                } else {
                    InstructionFileType::Agents
                },
            ),
        )
    } else {
        None
    }
}

/// The kind of file that a file name stands for: `VEGA.md` for that name,
/// and `AGENTS.md` for any other and for a path without a file name.
pub open spec fn kind_of_file_name(name: Option<Seq<char>>) -> InstructionFileType {
    if name == Some("VEGA.md"@) {
        InstructionFileType::Vega
    } else {
        InstructionFileType::Agents
    }
}

/// The instructions as they stand in a prompt: a heading that names the
/// source, the text, and a line feed where the text does not end in one.
pub open spec fn prompt_text(source_path: Seq<char>, content: Seq<char>) -> Seq<char> {
    let body = "\n# Agent Instructions (from "@ + source_path + ")\n\n"@ + content;
    if body.len() > 0 && body.last() == '\n' {
        body
    } else {
        body.push('\n')
    }
}

/// Finds and loads instruction files.
#[derive(Debug, Clone)]
pub struct AgentInstructionLoader {
    start_dir: String,
}

impl AgentInstructionLoader {
    /// The directory where the search starts.
    pub closed spec fn start(&self) -> Seq<char> {
        self.start_dir@
    }

    /// A loader that starts its search in `dir`.
    pub fn from_dir(dir: &str) -> (r: Self)
        ensures
            r.start() == dir@,
    {
        AgentInstructionLoader { start_dir: dir.to_string() }
    }

    /// The directory where the search starts.
    pub fn start_dir(&self) -> (r: &str)
        ensures
            r@ == self.start(),
    {
        self.start_dir.as_str()
    }

    /// Picks the file to load from what was seen in the starting directory
    /// and the directories above it, nearest first: the first directory
    /// with an instruction file wins, and in it `VEGA.md` goes before
    /// `AGENTS.md`.
    pub fn discover_instructions(&self, probes: &Vec<DirectoryProbe>) -> (r: Option<
        (usize, InstructionFileType),
    >)
        ensures
            r == discovered(probes@),
    {
        let mut i: usize = 0;
        while i < probes.len()
            invariant
                i <= probes.len(),
                first_with_file(probes@, 0) == first_with_file(probes@, i as int),
            decreases probes.len() - i,
        {
            if probes[i].has_vega {
                return Some((i, InstructionFileType::Vega));
            }
            if probes[i].has_agents {
                return Some((i, InstructionFileType::Agents));
            }
            i += 1;
        }
        None
    }

    /// The instructions read from a file of a known kind.
    pub fn load_instruction_file(path: &str, content: String, file_type: InstructionFileType) -> (r:
        AgentInstructions)
        ensures
            r.content == content,
            r.source_path@ == path@,
            r.file_type == file_type,
    {
        AgentInstructions { content, source_path: path.to_string(), file_type }
    }

    /// The instructions read from the file at `path`, whose kind goes by
    /// its file name, as the machine's rules for paths find it.
    pub fn load_from_path(&self, path: &str, content: String) -> (r: AgentInstructions)
        ensures
            r.content == content,
            r.source_path@ == path@,
    {
        let name = file_name(path);
        let file_type = InstructionFileType::of_file_name(
            match &name {
                Some(n) => Some(n.as_str()),
                None => None,
            },
        );
        Self::load_instruction_file(path, content, file_type)
    }
}

/// The instructions as they stand in a prompt.
pub fn format_instructions_for_prompt(instructions: &AgentInstructions) -> (r: String)
    ensures
        r@ == prompt_text(instructions.source_path@, instructions.content@),
{
    let mut formatted = "\n# Agent Instructions (from ".to_string();
    formatted.append(instructions.source_path.as_str());
    formatted.append(")\n\n");
    formatted.append(instructions.content.as_str());
    proof {
        reveal_strlit("\n# Agent Instructions (from ");
        reveal_strlit("\n");
    }
    let n = formatted.as_str().unicode_len();
    if formatted.as_str().get_char(n - 1) != '\n' {
        formatted.append("\n");
        assert(formatted@ =~= prompt_text(instructions.source_path@, instructions.content@));
    }
    formatted
}

} // verus!
