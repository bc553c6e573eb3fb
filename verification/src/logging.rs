//! How the logger is set up, and the levels it knows.

use crate::mcp::json::{json_text, optional_text, Json, JsonValue, NumericValue, ObjectBuilder};
use crate::text::{decimal, decimal_text, lowercased, same_text, to_lowercase};
use vstd::string::StringExecFns;
use vstd::prelude::*;

verus! {

/// Log levels, the most severe first.
#[derive(Debug, Clone, Copy, PartialEq, Eq, Structural, PartialOrd, Ord)]
pub enum LogLevel {
    Error,
    Warn,
    Info,
    Debug,
    Trace,
}

impl LogLevel {
    /// The level that a lower-case name stands for; `Info` for a name that
    /// stands for none.
    pub open spec fn named(name: Seq<char>) -> LogLevel {
        if name == "error"@ {
            LogLevel::Error
        } else if name == "warn"@ || name == "warning"@ {
            LogLevel::Warn
        } else if name == "info"@ {
            LogLevel::Info
        } else if name == "debug"@ {
            LogLevel::Debug
        } else if name == "trace"@ {
            LogLevel::Trace
        } else {
            LogLevel::Info
        }
    }

    /// The name of the level in capitals.
    pub open spec fn spec_as_str(self) -> Seq<char> {
        match self {
            LogLevel::Error => "ERROR"@,
            LogLevel::Warn => "WARN"@,
            LogLevel::Info => "INFO"@,
            LogLevel::Debug => "DEBUG"@,
            LogLevel::Trace => "TRACE"@,
        }
    }

    /// The level that a name stands for, whatever its case; `Info` for a
    /// name that stands for none.
    pub fn from_str(s: &str) -> (r: Self)
        ensures
            r == LogLevel::named(lowercased(s@)),
    {
        let lower = to_lowercase(s);
        let name = lower.as_str();
        if same_text(name, "error") {
            LogLevel::Error
        } else if same_text(name, "warn") || same_text(name, "warning") {
            LogLevel::Warn
        } else if same_text(name, "info") {
            LogLevel::Info
        } else if same_text(name, "debug") {
            LogLevel::Debug
        } else if same_text(name, "trace") {
            LogLevel::Trace
        } else {
            LogLevel::Info
        }
    }

    /// The level that a setting names, or `default` where nothing is set.
    pub fn from_env_or_default(setting: Option<&str>, default: LogLevel) -> (r: Self)
        ensures
            r == match setting {
                Some(name) => LogLevel::named(lowercased(name@)),
                None => default,
            },
    {
        match setting {
            Some(name) => LogLevel::from_str(name),
            None => default,
        }
    }

    /// The name of the level in capitals.
    pub fn as_str(&self) -> (r: &'static str)
        ensures
            r@ == self.spec_as_str(),
    {
        match self {
            LogLevel::Error => "ERROR",
            LogLevel::Warn => "WARN",
            LogLevel::Info => "INFO",
            LogLevel::Debug => "DEBUG",
            LogLevel::Trace => "TRACE",
        }
    }

    /// The rank of the level: 0 for the most severe.
    pub open spec fn spec_rank(self) -> u8 {
        match self {
            LogLevel::Error => 0u8,
            LogLevel::Warn => 1u8,
            LogLevel::Info => 2u8,
            LogLevel::Debug => 3u8,
            LogLevel::Trace => 4u8,
        }
    }

    /// The rank of the level: 0 for the most severe.
    pub fn rank(&self) -> (r: u8)
        ensures
            r == self.spec_rank(),
    {
        match self {
            LogLevel::Error => 0,
            LogLevel::Warn => 1,
            LogLevel::Info => 2,
            LogLevel::Debug => 3,
            LogLevel::Trace => 4,
        }
    }
}

/// Configuration of the logger.
#[derive(Debug, Clone)]
pub struct LoggerConfig {
    /// Log level for console output.
    pub console_level: LogLevel,
    /// Whether entries are written as JSON.
    pub structured: bool,
    /// The file to log to, if any.
    pub file_path: Option<String>,
    /// Whether entries go to the vector store.
    pub vector_store: bool,
    /// Whether entries go to the console.
    pub console_output: bool,
    /// The session that the entries belong to.
    pub session_id: String,
}

impl LoggerConfig {
    /// The configuration for a session: plain entries at level `Info`, to
    /// the console only.
    pub fn new(session_id: String) -> (r: Self)
        ensures
            r.console_level == LogLevel::Info,
            !r.structured,
            r.file_path.is_none(),
            !r.vector_store,
            r.console_output,
            r.session_id == session_id,
    {
        LoggerConfig {
            console_level: LogLevel::Info,
            structured: false,
            file_path: None,
            vector_store: false,
            console_output: true,
            session_id,
        }
    }

    /// The same configuration with another console level.
    pub fn with_console_level(self, level: LogLevel) -> (r: Self)
        ensures
            r == (LoggerConfig { console_level: level, ..self }),
    {
        let mut r = self;
        r.console_level = level;
        r
    }

    /// The same configuration with structured entries switched.
    pub fn with_structured(self, structured: bool) -> (r: Self)
        ensures
            r == (LoggerConfig { structured, ..self }),
    {
        let mut r = self;
        r.structured = structured;
        r
    }

    /// The same configuration with another log file, or none.
    pub fn with_file_path(self, path: Option<String>) -> (r: Self)
        ensures
            r == (LoggerConfig { file_path: path, ..self }),
    {
        let mut r = self;
        r.file_path = path;
        r
    }

    /// The same configuration with the vector store switched.
    pub fn with_vector_store(self, enabled: bool) -> (r: Self)
        ensures
            r == (LoggerConfig { vector_store: enabled, ..self }),
    {
        let mut r = self;
        r.vector_store = enabled;
        r
    }

    /// The same configuration with console output switched.
    pub fn with_console_output(self, enabled: bool) -> (r: Self)
        ensures
            r == (LoggerConfig { console_output: enabled, ..self }),
    {
        let mut r = self;
        r.console_output = enabled;
        r
    }
}

impl LoggerConfig {
    /// Whether an entry of this level is logged: its level is at least as
    /// severe as the configured one.
    pub fn allows(&self, level: LogLevel) -> (r: bool)
        ensures
            r == (level.spec_rank() <= self.console_level.spec_rank()),
    {
        level.rank() <= self.console_level.rank()
    }

    /// Where an entry of this level goes: to the console, to the file and
    /// to the vector store. Nothing is written for a level that is not
    /// logged; else each destination takes the entry where it is switched
    /// on and, for the file and the store, there to write to.
    pub fn destinations(&self, level: LogLevel, has_file: bool, has_store: bool) -> (r: (
        bool,
        bool,
        bool,
    ))
        ensures
            r == if level.spec_rank() <= self.console_level.spec_rank() {
                (self.console_output, has_file, self.vector_store && has_store)
            } else {
                (false, false, false)
            },
    {
        if self.allows(level) {
            (self.console_output, has_file, self.vector_store && has_store)
        } else {
            (false, false, false)
        }
    }
}

/// One entry of the log.
#[derive(Debug, Clone)]
pub struct LogEntry {
    pub id: String,
    /// When the entry was made, as it is shown.
    pub timestamp: String,
    pub level: String,
    pub message: String,
    pub session_id: String,
    pub module: Option<String>,
    pub file: Option<String>,
    pub line: Option<u32>,
    pub target: Option<String>,
    pub metadata: Vec<(String, String)>,
}

/// Where an entry comes from, as the console shows it: file and line, else
/// the module, else nothing.
pub open spec fn location_text(
    module: Option<String>,
    file: Option<String>,
    line: Option<u32>,
) -> Seq<char> {
    match (file, line) {
        (Some(f), Some(l)) => " ["@ + f@ + ":"@ + decimal_text(l as nat) + "]"@,
        _ => match module {
            Some(m) => " ["@ + m@ + "]"@,
            None => Seq::empty(),
        },
    }
}

/// The first `n` pairs of metadata, each as `key: value`, with `, `
/// between them.
pub open spec fn metadata_text(metadata: Seq<(String, String)>, n: nat) -> Seq<char>
    decreases n,
{
    if n == 0 || n > metadata.len() {
        Seq::empty()
    } else if n == 1 {
        metadata[0].0@ + ": "@ + metadata[0].1@
    } else {
        metadata_text(metadata, (n - 1) as nat) + ", "@ + metadata[n - 1].0@ + ": "@ + metadata[n
            - 1].1@
    }
}

/// An optional text as a document: the text, or `null`.
pub open spec fn optional_doc(text: Option<String>) -> JsonValue {
    match text {
        Some(t) => JsonValue::Text(t@),
        None => JsonValue::Null,
    }
}

/// The metadata as the members of an object, in order.
pub open spec fn metadata_members(metadata: Seq<(String, String)>) -> Seq<(Seq<char>, JsonValue)> {
    Seq::new(metadata.len(), |i: int| (metadata[i].0@, JsonValue::Text(metadata[i].1@)))
}

/// The entry as a document.
pub open spec fn entry_doc(entry: LogEntry) -> JsonValue {
    JsonValue::Object(
        seq![
            ("id"@, JsonValue::Text(entry.id@)),
            ("timestamp"@, JsonValue::Text(entry.timestamp@)),
            ("level"@, JsonValue::Text(entry.level@)),
            ("message"@, JsonValue::Text(entry.message@)),
            ("session_id"@, JsonValue::Text(entry.session_id@)),
            ("module"@, optional_doc(entry.module)),
            ("file"@, optional_doc(entry.file)),
            (
                "line"@,
                match entry.line {
                    Some(n) => JsonValue::Number(NumericValue::PosInt(n as u64)),
                    None => JsonValue::Null,
                },
            ),
            ("target"@, optional_doc(entry.target)),
            ("metadata"@, JsonValue::Object(metadata_members(entry.metadata@))),
        ],
    )
}

fn optional_json(text: &Option<String>) -> (r: Json)
    ensures
        r@ == optional_doc(*text),
{
    match text {
        Some(t) => Json::text(t.as_str()),
        None => Json::Null,
    }
}

impl LogEntry {
    /// The entry as a document.
    pub fn to_json(&self) -> (r: Json)
        ensures
            r@ == entry_doc(*self),
    {
        let mut metadata = ObjectBuilder::new();
        let mut i: usize = 0;
        assert(metadata@ =~= metadata_members(self.metadata@).subrange(0, 0));
        while i < self.metadata.len()
            invariant
                i <= self.metadata.len(),
                metadata@ == metadata_members(self.metadata@).subrange(0, i as int),
            decreases self.metadata.len() - i,
        {
            metadata.put(self.metadata[i].0.as_str(), Json::text(self.metadata[i].1.as_str()));
            i += 1;
            assert(metadata@ =~= metadata_members(self.metadata@).subrange(0, i as int));
        }
        assert(metadata@ =~= metadata_members(self.metadata@));
        let mut b = ObjectBuilder::new();
        b.put("id", Json::text(self.id.as_str()));
        b.put("timestamp", Json::text(self.timestamp.as_str()));
        b.put("level", Json::text(self.level.as_str()));
        b.put("message", Json::text(self.message.as_str()));
        b.put("session_id", Json::text(self.session_id.as_str()));
        b.put("module", optional_json(&self.module));
        b.put("file", optional_json(&self.file));
        let line = match self.line {
            Some(n) => Json::unsigned(n as u64),
            None => Json::Null,
        };
        b.put("line", line);
        b.put("target", optional_json(&self.target));
        b.put("metadata", metadata.build());
        assert(b@ =~= entry_doc(*self)->Object_0);
        b.build()
    }

    /// The entry as one line of JSON, for structured logs.
    pub fn format_json(&self) -> (r: Option<String>)
        ensures
            optional_text(r) == json_text(entry_doc(*self)),
    {
        self.to_json().to_text()
    }

    /// An entry made at `timestamp` under the identifier `id`, without
    /// metadata.
    pub fn new(
        id: String,
        timestamp: String,
        level: LogLevel,
        message: String,
        session_id: String,
        module: Option<String>,
        file: Option<String>,
        line: Option<u32>,
        target: Option<String>,
    ) -> (r: Self)
        ensures
            r.id == id,
            r.timestamp == timestamp,
            r.level@ == level.spec_as_str(),
            r.message == message,
            r.session_id == session_id,
            r.module == module,
            r.file == file,
            r.line == line,
            r.target == target,
            r.metadata@.len() == 0,
    {
        LogEntry {
            id,
            timestamp,
            level: level.as_str().to_string(),
            message,
            session_id,
            module,
            file,
            line,
            target,
            metadata: Vec::new(),
        }
    }

    /// The same entry with the given metadata.
    pub fn with_metadata(self, metadata: Vec<(String, String)>) -> (r: Self)
        ensures
            r == (LogEntry { metadata, ..self }),
    {
        let mut r = self;
        r.metadata = metadata;
        r
    }

    /// The entry as the console shows it.
    pub open spec fn console_text(self) -> Seq<char> {
        self.timestamp@ + " ["@ + self.level@ + "]"@ + location_text(
            self.module,
            self.file,
            self.line,
        ) + " "@ + self.message@
    }

    /// The entry as it is stored for searching.
    pub open spec fn vector_store_text(self) -> Seq<char> {
        let head = "Level: "@ + self.level@ + " | Message: "@ + self.message@ + " | Session: "@
            + self.session_id@;
        let with_module = match self.module {
            Some(m) => head + " | Module: "@ + m@,
            None => head,
        };
        let with_target = match self.target {
            Some(t) => with_module + " | Target: "@ + t@,
            None => with_module,
        };
        if self.metadata@.len() > 0 {
            with_target + " | Metadata: "@ + metadata_text(self.metadata@, self.metadata@.len())
        } else {
            with_target
        }
    }

    /// The entry as the console shows it: time, level, where it comes
    /// from, and the message.
    pub fn format_console(&self) -> (r: String)
        ensures
            r@ == self.console_text(),
    {
        let mut text = self.timestamp.clone();
        text.append(" [");
        text.append(self.level.as_str());
        text.append("]");
        let ghost head = text@;
        match (&self.file, &self.line) {
            (Some(file), Some(line)) => {
                text.append(" [");
                text.append(file.as_str());
                text.append(":");
                text.append(decimal(*line as u64).as_str());
                text.append("]");
                assert(text@ =~= head + location_text(self.module, self.file, self.line));
            },
            _ => match &self.module {
                Some(module) => {
                    text.append(" [");
                    text.append(module.as_str());
                    text.append("]");
                    assert(text@ =~= head + location_text(self.module, self.file, self.line));
                },
                None => {
                    assert(text@ =~= head + location_text(self.module, self.file, self.line));
                },
            },
        }
        text.append(" ");
        text.append(self.message.as_str());
        text
    }

    /// The entry as it is stored for searching: its parts, each under its
    /// name, with ` | ` between them.
    pub fn format_vector_store(&self) -> (r: String)
        ensures
            r@ == self.vector_store_text(),
    {
        let mut text = "Level: ".to_string();
        text.append(self.level.as_str());
        text.append(" | Message: ");
        text.append(self.message.as_str());
        text.append(" | Session: ");
        text.append(self.session_id.as_str());
        match &self.module {
            Some(module) => {
                text.append(" | Module: ");
                text.append(module.as_str());
            },
            None => {},
        }
        match &self.target {
            Some(target) => {
                text.append(" | Target: ");
                text.append(target.as_str());
            },
            None => {},
        }
        if self.metadata.len() > 0 {
            text.append(" | Metadata: ");
            let ghost head = text@;
            let mut i: usize = 0;
            assert(text@ =~= head + metadata_text(self.metadata@, 0));
            while i < self.metadata.len()
                invariant
                    i <= self.metadata.len(),
                    text@ == head + metadata_text(self.metadata@, i as nat),
                decreases self.metadata.len() - i,
            {
                let ghost before = metadata_text(self.metadata@, i as nat);
                if i > 0 {
                    text.append(", ");
                }
                text.append(self.metadata[i].0.as_str());
                text.append(": ");
                text.append(self.metadata[i].1.as_str());
                i += 1;
                assert(text@ =~= head + metadata_text(self.metadata@, i as nat));
            }
        }
        text
    }
}

} // verus!
