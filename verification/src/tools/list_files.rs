//! The directory listing tool: what it takes and gives.

use crate::text::{lowercased, same_text, to_lowercase};
use vstd::prelude::*;
use vstd::string::StrSliceExecFns;

verus! {

/// Arguments of the listing tool.
#[derive(Debug, Clone)]
pub struct ListFilesArgs {
    pub directory: String,
    pub recursive: bool,
    pub include_hidden: bool,
    /// File extensions to keep, such as `rs` or `md`.
    pub file_types: Option<Vec<String>>,
    pub max_files: usize,
    pub include_size: bool,
    pub include_modified: bool,
}

/// The number of files that is listed at most where none is given.
pub fn default_max_files() -> (r: usize)
    ensures
        r == 1000,
{
    1000
}

/// One entry of a listing.
#[derive(Debug, Clone)]
pub struct FileInfo {
    pub name: String,
    pub path: String,
    pub is_directory: bool,
    pub size_bytes: Option<u64>,
    /// Time of the last change, as an ISO 8601 timestamp.
    pub modified: Option<String>,
    pub extension: Option<String>,
}

/// A listing.
#[derive(Debug, Clone)]
pub struct ListFilesOutput {
    pub files: Vec<FileInfo>,
    pub directory: String,
    pub total_files: usize,
    pub total_directories: usize,
    pub truncated: bool,
}

/// Whether one of the first `n` file types, in lower case, is the
/// extension.
pub open spec fn type_listed(file_types: Seq<String>, extension: Seq<char>, n: nat) -> bool
    decreases n,
{
    if n == 0 || n > file_types.len() {
        false
    } else {
        lowercased(file_types[n - 1]@) == extension || type_listed(
            file_types,
            extension,
            (n - 1) as nat,
        )
    }
}

/// Whether an entry of a directory is listed. A name that starts with a
/// dot is left out unless hidden entries are asked for. Where file types
/// are given, a file is listed only if its extension is among them,
/// whatever their case; directories are listed in any case.
pub open spec fn listed(
    args: ListFilesArgs,
    name: Seq<char>,
    is_directory: bool,
    extension: Option<Seq<char>>,
) -> bool {
    if !args.include_hidden && name.len() > 0 && name[0] == '.' {
        false
    } else {
        match args.file_types {
            Some(file_types) => is_directory || match extension {
                Some(ext) => type_listed(file_types@, ext, file_types@.len()),
                None => false,
            },
            None => true,
        }
    }
}

/// The directory listing tool.
#[derive(Debug, Clone, Copy)]
pub struct ListFilesTool;

impl ListFilesTool {
    /// The name under which the tool is offered.
    pub const NAME: &'static str = "list_files";

    /// The tool.
    pub fn new() -> Self {
        ListFilesTool
    }
}

impl ListFilesTool {
    /// Whether an entry of a directory is listed, given its name, whether
    /// it is a directory, and its extension in lower case.
    pub fn keep_entry(args: &ListFilesArgs, name: &str, is_directory: bool, extension: Option<
        &str,
    >) -> (r: bool)
        ensures
            r == listed(
                *args,
                name@,
                is_directory,
                match extension {
                    Some(e) => Some(e@),
                    None => None,
                },
            ),
    {
        if !args.include_hidden && name.unicode_len() > 0 && name.get_char(0) == '.' {
            return false;
        }
        match &args.file_types {
            Some(file_types) => {
                if is_directory {
                    return true;
                }
                match extension {
                    Some(ext) => {
                        let mut i: usize = 0;
                        while i < file_types.len()
                            invariant
                                i <= file_types.len(),
                                args.file_types == Some(*file_types),
                                extension == Some(ext),
                                !is_directory,
                                !(!args.include_hidden && name@.len() > 0 && name@[0] == '.'),
                                !type_listed(file_types@, ext@, i as nat),
                            decreases file_types.len() - i,
                        {
                            if same_text(to_lowercase(file_types[i].as_str()).as_str(), ext) {
                                proof {
                                    lemma_type_listed(file_types@, ext@, i as nat);
                                }
                                return true;
                            }
                            i += 1;
                        }
                        false
                    },
                    None => false,
                }
            },
            None => true,
        }
    }

    /// Whether a listing is cut short, and how many of its entries stay:
    /// at most `max_files`.
    pub fn finish(
        mut files: Vec<FileInfo>,
        directory: String,
        total_files: usize,
        total_directories: usize,
        max_files: usize,
    ) -> (r: ListFilesOutput)
        ensures
            r.directory == directory,
            r.total_files == total_files,
            r.total_directories == total_directories,
            r.truncated == (files@.len() > max_files),
            r.files@ == if files@.len() > max_files {
                files@.subrange(0, max_files as int)
            } else {
                files@
            },
    {
        let truncated = files.len() > max_files;
        if truncated {
            files.truncate(max_files);
        }
        ListFilesOutput { files, directory, total_files, total_directories, truncated }
    }
}

/// A file type that matches at one place matches among all the places up
/// to any later one.
pub proof fn lemma_type_listed(file_types: Seq<String>, extension: Seq<char>, i: nat)
    requires
        i < file_types.len(),
        lowercased(file_types[i as int]@) == extension,
    ensures
        type_listed(file_types, extension, file_types.len()),
{
    lemma_type_listed_from(file_types, extension, i, file_types.len());
}

/// A file type that matches at place `i` matches among the first `n`
/// places, for any `n` beyond `i`.
pub proof fn lemma_type_listed_from(file_types: Seq<String>, extension: Seq<char>, i: nat, n: nat)
    requires
        i < n <= file_types.len(),
        lowercased(file_types[i as int]@) == extension,
    ensures
        type_listed(file_types, extension, n),
    decreases n,
{
    if n > i + 1 {
        lemma_type_listed_from(file_types, extension, i, (n - 1) as nat);
    }
}

impl Default for ListFilesTool {
    fn default() -> Self {
        ListFilesTool::new()
    }
}

} // verus!
