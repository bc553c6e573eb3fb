//! The log reading tool: what it takes, and the logger it reads from.

use crate::logging::{LogEntry, LogLevel, LoggerConfig};
use crate::text::{char_from, decimal, decimal_text, find_char, lowercased, same_text};
use vstd::string::{StrSliceExecFns, StringExecFns};
use vstd::prelude::*;

verus! {

/// Arguments of the log reading tool.
#[derive(Debug, Clone)]
pub struct ReadLogsArgs {
    /// The session whose entries are read.
    pub session_id: String,
    /// The number of entries returned at most.
    pub limit: Option<usize>,
    /// The level to keep: error, warn, info, debug or trace.
    pub level_filter: Option<String>,
}

/// What `chrono::NaiveDateTime::parse_from_str` reads from a text under
/// the format of console timestamps, a date and a time of day without a
/// zone, shown again in that format and marked as UTC, which is the zone
/// of the log; `None` where the text is no such date and time.
pub uninterp spec fn console_timestamp(text: Seq<char>) -> Option<Seq<char>>;

/// `chrono::NaiveDateTime::parse_from_str` with the format
/// `%Y-%m-%d %H:%M:%S%.3f`, and `format` on what it reads.
#[verifier::external_body]
fn parse_timestamp(text: &str) -> (r: Option<String>)
    ensures
        match r {
            Some(t) => console_timestamp(text@) == Some(t@),
            None => console_timestamp(text@).is_none(),
        },
{
    chrono::NaiveDateTime::parse_from_str(text, "%Y-%m-%d %H:%M:%S%.3f").ok().map(
        |t| t.format("%Y-%m-%d %H:%M:%S%.3f UTC").to_string(),
    )
}

/// What a line of the console log says, as plain values: when, at what
/// level, and the message.
pub ghost struct ConsoleLine {
    pub timestamp: Seq<char>,
    pub level: Seq<char>,
    pub message: Seq<char>,
}

/// What a line of the console log says. The line is cut at its first three
/// spaces: date, time, a third word, and the rest. Date and time must be a
/// timestamp. In the rest, the level stands between the first `[` and the
/// first `]`, which comes after it, and the message starts two places after
/// the `]`.
pub open spec fn console_line(s: Seq<char>) -> Option<ConsoleLine> {
    let a = char_from(s, ' ', 0);
    let b = char_from(s, ' ', a + 1);
    let c = char_from(s, ' ', b + 1);
    if a >= s.len() || b >= s.len() || c >= s.len() {
        None
    } else {
        let rest = s.subrange(c + 1, s.len() as int);
        let open = char_from(rest, '[', 0);
        let close = char_from(rest, ']', 0);
        match console_timestamp(s.subrange(0, a) + " "@ + s.subrange(a + 1, b)) {
            None => None,
            Some(timestamp) => if open >= rest.len() || close >= rest.len() || close <= open {
                None
            } else {
                Some(
                    ConsoleLine {
                        timestamp,
                        level: rest.subrange(open + 1, close),
                        message: if close + 2 < rest.len() {
                            rest.subrange(close + 2, rest.len() as int)
                        } else {
                            Seq::empty()
                        },
                    },
                )
            },
        }
    }
}

/// Where logs are read from.
#[derive(Debug, Clone, Copy, PartialEq, Eq, Structural)]
pub enum LogSource {
    /// The vector store.
    VectorStore,
    /// The log file.
    File,
    /// Nowhere: logs go to the console only.
    Nowhere,
}

/// Whether `name` is one of the parts of a setting, from place `from` on;
/// the parts are divided by commas.
pub open spec fn names_output(setting: Seq<char>, name: Seq<char>, from: int) -> bool
    decreases setting.len() - from,
{
    if from < 0 || from > setting.len() {
        false
    } else {
        let end = char_from(setting, ',', from);
        if end < from {
            false
        } else if setting.subrange(from, end) == name {
            true
        } else if end >= setting.len() {
            false
        } else {
            names_output(setting, name, end + 1)
        }
    }
}

/// Where logs are read from, given the setting that lists the outputs of
/// the log: the vector store where it is listed, else the file where that
/// is listed.
pub open spec fn source_of(setting: Seq<char>) -> LogSource {
    if names_output(setting, "vector"@, 0) {
        LogSource::VectorStore
    } else if names_output(setting, "file"@, 0) {
        LogSource::File
    } else {
        LogSource::Nowhere
    }
}

/// The metadata of an entry as it is shown, up to pair `n`: each pair as
/// `key=value` and a space.
pub open spec fn shown_metadata(metadata: Seq<(String, String)>, n: nat) -> Seq<char>
    decreases n,
{
    if n == 0 || n > metadata.len() {
        Seq::empty()
    } else {
        shown_metadata(metadata, (n - 1) as nat) + metadata[n - 1].0@ + "="@ + metadata[n - 1].1@
            + " "@
    }
}

/// An entry as it is shown: time, level and message on one line, its
/// metadata on a second line where it has any, and an empty line.
pub open spec fn shown_entry(entry: LogEntry) -> Seq<char> {
    let head = entry.timestamp@ + " ["@ + entry.level@ + "] "@ + entry.message@ + "\n"@;
    if entry.metadata@.len() > 0 {
        head + "  Metadata: "@ + shown_metadata(entry.metadata@, entry.metadata@.len()) + "\n"@
            + "\n"@
    } else {
        head + "\n"@
    }
}

/// The first `n` entries as they are shown, one after the other.
pub open spec fn shown_entries(entries: Seq<LogEntry>, n: nat) -> Seq<char>
    decreases n,
{
    if n == 0 || n > entries.len() {
        Seq::empty()
    } else {
        shown_entries(entries, (n - 1) as nat) + shown_entry(entries[n - 1])
    }
}

/// What the tool answers for the entries of a session: the entries under
/// a heading that counts them, or a note that there are none.
pub open spec fn report(entries: Seq<LogEntry>, session_id: Seq<char>) -> Seq<char> {
    if entries.len() == 0 {
        "No log entries found for session ID: "@ + session_id
    } else {
        "Found "@ + decimal_text(entries.len()) + " log entries for session "@ + session_id
            + ":\n\n"@ + shown_entries(entries, entries.len())
    }
}

/// Whether an entry passes a level filter: its level is the filter's
/// level or a more severe one. Levels go by their names, in any case; a
/// name that stands for no level counts as `info`.
pub open spec fn passes(entry: LogEntry, filter: Seq<char>) -> bool {
    LogLevel::named(lowercased(entry.level@)).spec_rank() <= LogLevel::named(
        lowercased(filter),
    ).spec_rank()
}

/// Those of the first `n` entries that pass the filter, in order.
pub open spec fn passing(entries: Seq<LogEntry>, filter: Seq<char>, n: nat) -> Seq<LogEntry>
    decreases n,
{
    if n == 0 || n > entries.len() {
        Seq::empty()
    } else if passes(entries[n - 1], filter) {
        passing(entries, filter, (n - 1) as nat).push(entries[n - 1])
    } else {
        passing(entries, filter, (n - 1) as nat)
    }
}

/// The log reading tool, with the logger it reads from, if it has one.
#[derive(Debug, Clone)]
pub struct ReadLogsTool {
    logger: Option<LoggerConfig>,
}

impl ReadLogsTool {
    /// The name under which the tool is offered.
    pub const NAME: &'static str = "read_logs";

    /// The logger that the tool reads from.
    pub closed spec fn logger(&self) -> Option<LoggerConfig> {
        self.logger
    }

    /// The tool without a logger.
    pub fn new() -> (r: Self)
        ensures
            r.logger().is_none(),
    {
        ReadLogsTool { logger: None }
    }

    /// The tool reading from `logger`.
    pub fn with_logger(self, logger: LoggerConfig) -> (r: Self)
        ensures
            r.logger() == Some(logger),
    {
        ReadLogsTool { logger: Some(logger) }
    }

    /// Whether `name` is one of the parts of a setting.
    fn lists(setting: &str, name: &str) -> (r: bool)
        ensures
            r == names_output(setting@, name@, 0),
    {
        let len = setting.unicode_len();
        let mut from: usize = 0;
        loop
            invariant
                from <= len,
                len == setting@.len(),
                names_output(setting@, name@, 0) == names_output(setting@, name@, from as int),
            decreases len - from,
        {
            let end = find_char(setting, ',', from);
            if same_text(setting.substring_char(from, end), name) {
                return true;
            }
            if end >= len {
                return false;
            }
            from = end + 1;
        }
    }

    /// Where logs are read from, given the setting that lists the outputs
    /// of the log.
    pub fn log_source(setting: &str) -> (r: LogSource)
        ensures
            r == source_of(setting@),
    {
        if Self::lists(setting, "vector") {
            LogSource::VectorStore
        } else if Self::lists(setting, "file") {
            LogSource::File
        } else {
            LogSource::Nowhere
        }
    }

    /// What the tool answers for the entries of a session.
    pub fn format_entries(entries: &Vec<LogEntry>, session_id: &str) -> (r: String)
        ensures
            r@ == report(entries@, session_id@),
    {
        if entries.len() == 0 {
            let mut text = "No log entries found for session ID: ".to_string();
            text.append(session_id);
            return text;
        }
        let mut text = "Found ".to_string();
        text.append(decimal(entries.len() as u64).as_str());
        text.append(" log entries for session ");
        text.append(session_id);
        text.append(":\n\n");
        let ghost head = text@;
        let mut i: usize = 0;
        assert(text@ =~= head + shown_entries(entries@, 0));
        while i < entries.len()
            invariant
                i <= entries.len(),
                text@ == head + shown_entries(entries@, i as nat),
            decreases entries.len() - i,
        {
            let entry = &entries[i];
            let ghost before = text@;
            text.append(entry.timestamp.as_str());
            text.append(" [");
            text.append(entry.level.as_str());
            text.append("] ");
            text.append(entry.message.as_str());
            text.append("\n");
            if entry.metadata.len() > 0 {
                text.append("  Metadata: ");
                let ghost start = text@;
                let mut j: usize = 0;
                assert(text@ =~= start + shown_metadata(entry.metadata@, 0));
                while j < entry.metadata.len()
                    invariant
                        j <= entry.metadata.len(),
                        text@ == start + shown_metadata(entry.metadata@, j as nat),
                    decreases entry.metadata.len() - j,
                {
                    text.append(entry.metadata[j].0.as_str());
                    text.append("=");
                    text.append(entry.metadata[j].1.as_str());
                    text.append(" ");
                    j += 1;
                    assert(text@ =~= start + shown_metadata(entry.metadata@, j as nat));
                }
                text.append("\n");
            }
            text.append("\n");
            i += 1;
            assert(text@ =~= before + shown_entry(entries@[i - 1]));
            assert(text@ =~= head + shown_entries(entries@, i as nat));
        }
        text
    }

    /// Reads one line of the console log into an entry of the given
    /// session, under the identifier `id`.
    pub fn parse_console_log_line(line: &str, session_id: &str, id: String) -> (r: Option<LogEntry>)
        ensures
            match r {
                Some(entry) => console_line(line@) == Some(
                    ConsoleLine {
                        timestamp: entry.timestamp@,
                        level: entry.level@,
                        message: entry.message@,
                    },
                ) && entry.id == id && entry.session_id@ == session_id@ && entry.module.is_none()
                    && entry.file.is_none() && entry.line.is_none() && entry.target.is_none()
                    && entry.metadata@.len() == 0,
                None => console_line(line@).is_none(),
            },
    {
        let len = line.unicode_len();
        let a = find_char(line, ' ', 0);
        if a >= len {
            return None;
        }
        let b = find_char(line, ' ', a + 1);
        if b >= len {
            return None;
        }
        let c = find_char(line, ' ', b + 1);
        if c >= len {
            return None;
        }
        let mut stamp = line.substring_char(0, a).to_string();
        stamp.append(" ");
        stamp.append(line.substring_char(a + 1, b));
        let timestamp = match parse_timestamp(stamp.as_str()) {
            Some(t) => t,
            None => {
                return None;
            },
        };
        let rest = line.substring_char(c + 1, len);
        let rest_len = rest.unicode_len();
        let open = find_char(rest, '[', 0);
        let close = find_char(rest, ']', 0);
        if open >= rest_len || close >= rest_len || close <= open {
            return None;
        }
        let message = if close + 2 < rest_len {
            rest.substring_char(close + 2, rest_len).to_string()
        } else {
            String::new()
        };
        Some(
            LogEntry {
                id,
                timestamp,
                level: rest.substring_char(open + 1, close).to_string(),
                message,
                session_id: session_id.to_string(),
                module: None,
                file: None,
                line: None,
                target: None,
                metadata: Vec::new(),
            },
        )
    }

    /// The entries that pass a level filter, in order; all of them where
    /// there is no filter.
    pub fn filter_by_level(entries: Vec<LogEntry>, level_filter: Option<String>) -> (r: Vec<
        LogEntry,
    >)
        ensures
            r@ == match level_filter {
                Some(filter) => passing(entries@, filter@, entries@.len()),
                None => entries@,
            },
    {
        match level_filter {
            None => entries,
            Some(filter) => {
                let wanted = LogLevel::from_str(filter.as_str());
                let mut rest = entries;
                let mut kept: Vec<LogEntry> = Vec::new();
                let ghost all = entries@;
                let ghost mut done: nat = 0;
                assert(rest@ =~= all.subrange(0, all.len() as int));
                while rest.len() > 0
                    invariant
                        done + rest@.len() == all.len(),
                        rest@ =~= all.subrange(done as int, all.len() as int),
                        kept@ == passing(all, filter@, done),
                        wanted == LogLevel::named(lowercased(filter@)),
                    decreases rest.len(),
                {
                    let entry = rest.remove(0);
                    assert(entry == all[done as int]);
                    proof {
                        done = done + 1;
                    }
                    if LogLevel::from_str(entry.level.as_str()).rank() <= wanted.rank() {
                        kept.push(entry);
                    }
                }
                kept
            },
        }
    }

    /// Whether the tool has a logger.
    pub fn has_logger(&self) -> (r: bool)
        ensures
            r == self.logger().is_some(),
    {
        self.logger.is_some()
    }
}

impl Default for ReadLogsTool {
    fn default() -> (r: Self)
        ensures
            r.logger().is_none(),
    {
        ReadLogsTool::new()
    }
}

} // verus!
