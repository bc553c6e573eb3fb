//! The bridge between the host's tools and the protocol: tool definitions
//! in wire form, the catalog of the tools that can be offered, and the
//! envelope in which a tool's outcome travels.

use super::json::{json_text, optional_text, optional_view, parsed_json, values_of};
use super::json::{Json, JsonValue, NumericValue, ObjectBuilder};
use crate::keyed::{distinct_keys, get_key, has_key, key_list, put_key, value_of};
use crate::keyed::with_entry;
use vstd::prelude::*;
use vstd::string::StringExecFns;

verus! {

/// A tool as it is advertised: its name, what it does, and the JSON schema
/// of its arguments.
#[derive(Debug)]
pub struct ToolDefinition {
    pub name: String,
    pub description: Option<String>,
    pub input_schema: Json,
}

pub ghost struct ToolDefinitionValue {
    pub name: Seq<char>,
    pub description: Option<Seq<char>>,
    pub input_schema: JsonValue,
}

impl View for ToolDefinition {
    type V = ToolDefinitionValue;

    open spec fn view(&self) -> ToolDefinitionValue {
        ToolDefinitionValue {
            name: self.name@,
            description: optional_text(self.description),
            input_schema: self.input_schema@,
        }
    }
}

/// The value of an optional definition.
pub open spec fn optional_definition(d: Option<ToolDefinition>) -> Option<ToolDefinitionValue> {
    match d {
        Some(x) => Some(x@),
        None => None,
    }
}

/// The values of a list of definitions, in order.
pub open spec fn definitions_of(items: Seq<ToolDefinition>) -> Seq<ToolDefinitionValue> {
    Seq::new(items.len(), |i: int| items[i]@)
}

/// The wire form of a definition; `description` is left out where there is
/// none.
pub open spec fn definition_doc(d: ToolDefinitionValue) -> JsonValue {
    match d.description {
        Some(text) => JsonValue::Object(
            seq![
                ("name"@, JsonValue::Text(d.name)),
                ("description"@, JsonValue::Text(text)),
                ("input_schema"@, d.input_schema),
            ],
        ),
        None => JsonValue::Object(
            seq![("name"@, JsonValue::Text(d.name)), ("input_schema"@, d.input_schema)],
        ),
    }
}

/// The definition that a document holds: an object with a string `name`,
/// an `input_schema`, and a `description` that is a string, `null` or
/// absent.
pub open spec fn definition_of(doc: JsonValue) -> Option<ToolDefinitionValue> {
    match (doc.member("name"@), doc.member("input_schema"@)) {
        (Some(n), Some(schema)) => match n.text() {
            Some(name) => match doc.member("description"@) {
                Some(JsonValue::Text(text)) => Some(
                    ToolDefinitionValue { name, description: Some(text), input_schema: schema },
                ),
                Some(JsonValue::Null) | None => Some(
                    ToolDefinitionValue { name, description: None, input_schema: schema },
                ),
                Some(_) => None,
            },
            None => None,
        },
        _ => None,
    }
}

/// The three member names of a definition differ from each other.
pub proof fn lemma_definition_keys()
    ensures
        "name"@ != "description"@,
        "name"@ != "input_schema"@,
        "description"@ != "input_schema"@,
{
    reveal_strlit("name");
    reveal_strlit("description");
    reveal_strlit("input_schema");
    assert("name"@.len() == 4);
    assert("description"@.len() == 11);
    assert("input_schema"@.len() == 12);
}

/// Writing a definition in wire form and reading it back gives the same
/// definition, whatever its schema: empty, nested objects or arrays.
pub proof fn lemma_definition_round_trip(d: ToolDefinitionValue)
    ensures
        definition_of(definition_doc(d)) == Some(d),
{
    lemma_definition_keys();
    let doc = definition_doc(d);
    let fields = doc->Object_0;
    reveal_with_fuel(crate::mcp::json::lookup, 4);
    match d.description {
        Some(text) => {
            assert(fields.len() == 3);
            assert(fields.drop_last().len() == 2);
            assert(fields.drop_last().drop_last().len() == 1);
            assert(fields.last() == ("input_schema"@, d.input_schema));
            assert(fields.drop_last().last() == ("description"@, JsonValue::Text(text)));
            assert(fields.drop_last().drop_last().last() == ("name"@, JsonValue::Text(d.name)));
        },
        None => {
            assert(fields.len() == 2);
            assert(fields.drop_last().len() == 1);
            assert(fields.drop_last().drop_last().len() == 0);
            assert(fields.last() == ("input_schema"@, d.input_schema));
            assert(fields.drop_last().last() == ("name"@, JsonValue::Text(d.name)));
        },
    }
}

impl ToolDefinition {
    /// The wire form of the definition.
    pub fn to_json(&self) -> (r: Json)
        ensures
            r@ == definition_doc(self@),
    {
        let mut b = ObjectBuilder::new();
        b.put("name", Json::text(self.name.as_str()));
        match &self.description {
            Some(text) => {
                b.put("description", Json::text(text.as_str()));
            },
            None => {},
        }
        b.put("input_schema", self.input_schema.clone());
        assert(b@ =~= definition_doc(self@)->Object_0);
        b.build()
    }

    /// Reads a definition from its wire form.
    pub fn from_json(doc: &Json) -> (r: Option<ToolDefinition>)
        ensures
            optional_definition(r) == definition_of(doc@),
    {
        let name = match doc.get("name") {
            Some(n) => n.as_str(),
            None => None,
        };
        match (name, doc.get("input_schema")) {
            (Some(name), Some(schema)) => match doc.get("description") {
                Some(Json::Text(text)) => Some(
                    ToolDefinition {
                        name: name.to_string(),
                        description: Some(text.clone()),
                        input_schema: schema.clone(),
                    },
                ),
                Some(Json::Null) | None => Some(
                    ToolDefinition {
                        name: name.to_string(),
                        description: None,
                        input_schema: schema.clone(),
                    },
                ),
                Some(_) => None,
            },
            _ => None,
        }
    }

    /// A copy of the definition.
    pub fn copy(&self) -> (r: ToolDefinition)
        ensures
            r@ == self@,
    {
        ToolDefinition {
            name: self.name.clone(),
            description: match &self.description {
                Some(text) => Some(text.clone()),
                None => None,
            },
            input_schema: self.input_schema.clone(),
        }
    }
}

/// A schema property: the kind of value and what it means.
pub open spec fn property(kind: Seq<char>, description: Seq<char>) -> JsonValue {
    JsonValue::Object(
        seq![("type"@, JsonValue::Text(kind)), ("description"@, JsonValue::Text(description))],
    )
}

/// A schema property with the value that is taken where none is given.
pub open spec fn property_with_default(
    kind: Seq<char>,
    description: Seq<char>,
    default: JsonValue,
) -> JsonValue {
    JsonValue::Object(
        seq![
            ("type"@, JsonValue::Text(kind)),
            ("description"@, JsonValue::Text(description)),
            ("default"@, default),
        ],
    )
}

/// A schema property that is a list of items of one kind.
pub open spec fn list_property(description: Seq<char>, item_kind: Seq<char>) -> JsonValue {
    JsonValue::Object(
        seq![
            ("type"@, JsonValue::Text("array"@)),
            ("description"@, JsonValue::Text(description)),
            ("items"@, JsonValue::Object(seq![("type"@, JsonValue::Text(item_kind))])),
        ],
    )
}

/// A schema property that is a list of exactly two items of one kind.
pub open spec fn pair_property(description: Seq<char>, item_kind: Seq<char>) -> JsonValue {
    JsonValue::Object(
        seq![
            ("type"@, JsonValue::Text("array"@)),
            ("description"@, JsonValue::Text(description)),
            ("items"@, JsonValue::Object(seq![("type"@, JsonValue::Text(item_kind))])),
            ("minItems"@, JsonValue::Number(NumericValue::PosInt(2))),
            ("maxItems"@, JsonValue::Number(NumericValue::PosInt(2))),
        ],
    )
}

/// The schema of an object with the given properties, of which `required`
/// must be given.
pub open spec fn object_schema(
    properties: Seq<(Seq<char>, JsonValue)>,
    required: Seq<JsonValue>,
) -> JsonValue {
    JsonValue::Object(
        seq![
            ("type"@, JsonValue::Text("object"@)),
            ("properties"@, JsonValue::Object(properties)),
            ("required"@, JsonValue::Array(required)),
        ],
    )
}

pub(crate) fn make_property(kind: &str, description: &str) -> (r: Json)
    ensures
        r@ == property(kind@, description@),
{
    let mut b = ObjectBuilder::new();
    b.put("type", Json::text(kind));
    b.put("description", Json::text(description));
    assert(b@ =~= property(kind@, description@)->Object_0);
    b.build()
}

fn make_property_with_default(kind: &str, description: &str, default: Json) -> (r: Json)
    ensures
        r@ == property_with_default(kind@, description@, default@),
{
    let mut b = ObjectBuilder::new();
    b.put("type", Json::text(kind));
    b.put("description", Json::text(description));
    b.put("default", default);
    assert(b@ =~= property_with_default(kind@, description@, default@)->Object_0);
    b.build()
}

fn item_kind(kind: &str) -> (r: Json)
    ensures
        r@ == JsonValue::Object(seq![("type"@, JsonValue::Text(kind@))]),
{
    let mut b = ObjectBuilder::new();
    b.put("type", Json::text(kind));
    assert(b@ =~= seq![("type"@, JsonValue::Text(kind@))]);
    b.build()
}

fn make_list_property(description: &str, kind: &str) -> (r: Json)
    ensures
        r@ == list_property(description@, kind@),
{
    let mut b = ObjectBuilder::new();
    b.put("type", Json::text("array"));
    b.put("description", Json::text(description));
    b.put("items", item_kind(kind));
    assert(b@ =~= list_property(description@, kind@)->Object_0);
    b.build()
}

fn make_pair_property(description: &str, kind: &str) -> (r: Json)
    ensures
        r@ == pair_property(description@, kind@),
{
    let mut b = ObjectBuilder::new();
    b.put("type", Json::text("array"));
    b.put("description", Json::text(description));
    b.put("items", item_kind(kind));
    b.put("minItems", Json::unsigned(2));
    b.put("maxItems", Json::unsigned(2));
    assert(b@ =~= pair_property(description@, kind@)->Object_0);
    b.build()
}

pub(crate) fn make_object_schema(properties: ObjectBuilder, required: Vec<Json>) -> (r: Json)
    ensures
        r@ == object_schema(properties@, values_of(required@)),
{
    let mut b = ObjectBuilder::new();
    b.put("type", Json::text("object"));
    b.put("properties", properties.build());
    b.put("required", Json::array(required));
    assert(b@ =~= object_schema(properties@, values_of(required@))->Object_0);
    b.build()
}

/// The properties that the `bash` tool takes.
pub open spec fn bash_properties() -> Seq<(Seq<char>, JsonValue)> {
    seq![
        ("command"@, property("string"@, "The shell command to execute"@)),
        (
            "timeout_seconds"@,
            property_with_default(
                "number"@,
                "Timeout in seconds (default: 30)"@,
                JsonValue::Number(NumericValue::PosInt(30)),
            ),
        ),
        ("working_directory"@, property("string"@, "Working directory for the command"@)),
    ]
}

/// The `bash` tool as it is advertised.
pub open spec fn bash_tool() -> ToolDefinitionValue {
    ToolDefinitionValue {
        name: "bash"@,
        description: Some("Execute shell commands with safety checks and timeout protection"@),
        input_schema: object_schema(bash_properties(), seq![JsonValue::Text("command"@)]),
    }
}

fn bash_definition() -> (r: ToolDefinition)
    ensures
        r@ == bash_tool(),
{
    let mut p = ObjectBuilder::new();
    p.put("command", make_property("string", "The shell command to execute"));
    p.put(
        "timeout_seconds",
        make_property_with_default(
            "number",
            "Timeout in seconds (default: 30)",
            Json::unsigned(30),
        ),
    );
    p.put("working_directory", make_property("string", "Working directory for the command"));
    assert(p@ =~= bash_properties());
    let mut required: Vec<Json> = Vec::new();
    required.push(Json::text("command"));
    assert(values_of(required@) =~= seq![JsonValue::Text("command"@)]);
    ToolDefinition {
        name: "bash".to_string(),
        description: Some(
            "Execute shell commands with safety checks and timeout protection".to_string(),
        ),
        input_schema: make_object_schema(p, required),
    }
}

/// The properties that the `read_file` tool takes.
pub open spec fn read_file_properties() -> Seq<(Seq<char>, JsonValue)> {
    seq![
        ("path"@, property("string"@, "Path to the file to read"@)),
        (
            "encoding"@,
            property("string"@, "Text encoding to use (auto-detected if not specified)"@),
        ),
        (
            "max_size_mb"@,
            property_with_default(
                "number"@,
                "Maximum file size in MB (default: 10)"@,
                JsonValue::Number(NumericValue::PosInt(10)),
            ),
        ),
        (
            "line_range"@,
            pair_property("Line range [start_line, end_line] (1-indexed)"@, "number"@),
        ),
    ]
}

/// The `read_file` tool as it is advertised.
pub open spec fn read_file_tool() -> ToolDefinitionValue {
    ToolDefinitionValue {
        name: "read_file"@,
        description: Some("Read file contents with safety checks and encoding detection"@),
        input_schema: object_schema(read_file_properties(), seq![JsonValue::Text("path"@)]),
    }
}

fn read_file_definition() -> (r: ToolDefinition)
    ensures
        r@ == read_file_tool(),
{
    let mut p = ObjectBuilder::new();
    p.put("path", make_property("string", "Path to the file to read"));
    p.put(
        "encoding",
        make_property("string", "Text encoding to use (auto-detected if not specified)"),
    );
    p.put(
        "max_size_mb",
        make_property_with_default(
            "number",
            "Maximum file size in MB (default: 10)",
            Json::unsigned(10),
        ),
    );
    p.put(
        "line_range",
        make_pair_property("Line range [start_line, end_line] (1-indexed)", "number"),
    );
    assert(p@ =~= read_file_properties());
    let mut required: Vec<Json> = Vec::new();
    required.push(Json::text("path"));
    assert(values_of(required@) =~= seq![JsonValue::Text("path"@)]);
    ToolDefinition {
        name: "read_file".to_string(),
        description: Some(
            "Read file contents with safety checks and encoding detection".to_string(),
        ),
        input_schema: make_object_schema(p, required),
    }
}

/// The properties that the `edit_file` tool takes.
pub open spec fn edit_file_properties() -> Seq<(Seq<char>, JsonValue)> {
    seq![
        ("path"@, property("string"@, "Path to the file to edit or create"@)),
        ("content"@, property("string"@, "Content to write to the file"@)),
        (
            "create_if_missing"@,
            property_with_default(
                "boolean"@,
                "Create file if it doesn't exist (default: false)"@,
                JsonValue::Bool(false),
            ),
        ),
        (
            "backup"@,
            property_with_default(
                "boolean"@,
                "Create backup of existing file (default: false)"@,
                JsonValue::Bool(false),
            ),
        ),
        (
            "encoding"@,
            property_with_default(
                "string"@,
                "Text encoding to use (default: UTF-8)"@,
                JsonValue::Text("utf-8"@),
            ),
        ),
    ]
}

/// The `edit_file` tool as it is advertised.
pub open spec fn edit_file_tool() -> ToolDefinitionValue {
    ToolDefinitionValue {
        name: "edit_file"@,
        description: Some("Create or edit files with backup support and safety validation"@),
        input_schema: object_schema(edit_file_properties(), seq![JsonValue::Text("path"@), JsonValue::Text("content"@)]),
    }
}

fn edit_file_definition() -> (r: ToolDefinition)
    ensures
        r@ == edit_file_tool(),
{
    let mut p = ObjectBuilder::new();
    p.put("path", make_property("string", "Path to the file to edit or create"));
    p.put("content", make_property("string", "Content to write to the file"));
    p.put(
        "create_if_missing",
        make_property_with_default(
            "boolean",
            "Create file if it doesn't exist (default: false)",
            Json::Bool(false),
        ),
    );
    p.put(
        "backup",
        make_property_with_default(
            "boolean",
            "Create backup of existing file (default: false)",
            Json::Bool(false),
        ),
    );
    p.put(
        "encoding",
        make_property_with_default(
            "string",
            "Text encoding to use (default: UTF-8)",
            Json::text("utf-8"),
        ),
    );
    assert(p@ =~= edit_file_properties());
    let mut required: Vec<Json> = Vec::new();
    required.push(Json::text("path"));
    required.push(Json::text("content"));
    assert(values_of(required@) =~= seq![JsonValue::Text("path"@), JsonValue::Text("content"@)]);
    ToolDefinition {
        name: "edit_file".to_string(),
        description: Some(
            "Create or edit files with backup support and safety validation".to_string(),
        ),
        input_schema: make_object_schema(p, required),
    }
}

/// The properties that the `list_files` tool takes.
pub open spec fn list_files_properties() -> Seq<(Seq<char>, JsonValue)> {
    seq![
        ("directory"@, property("string"@, "Directory path to list files from"@)),
        (
            "recursive"@,
            property_with_default(
                "boolean"@,
                "List files recursively (default: false)"@,
                JsonValue::Bool(false),
            ),
        ),
        (
            "include_hidden"@,
            property_with_default(
                "boolean"@,
                "Include hidden files (default: false)"@,
                JsonValue::Bool(false),
            ),
        ),
        ("file_types"@, list_property("File extensions to filter by"@, "string"@)),
        (
            "max_files"@,
            property_with_default(
                "number"@,
                "Maximum number of files to return (default: 1000)"@,
                JsonValue::Number(NumericValue::PosInt(1000)),
            ),
        ),
    ]
}

/// The `list_files` tool as it is advertised.
pub open spec fn list_files_tool() -> ToolDefinitionValue {
    ToolDefinitionValue {
        name: "list_files"@,
        description: Some("List directory contents with filtering and metadata options"@),
        input_schema: object_schema(list_files_properties(), seq![JsonValue::Text("directory"@)]),
    }
}

fn list_files_definition() -> (r: ToolDefinition)
    ensures
        r@ == list_files_tool(),
{
    let mut p = ObjectBuilder::new();
    p.put("directory", make_property("string", "Directory path to list files from"));
    p.put(
        "recursive",
        make_property_with_default(
            "boolean",
            "List files recursively (default: false)",
            Json::Bool(false),
        ),
    );
    p.put(
        "include_hidden",
        make_property_with_default(
            "boolean",
            "Include hidden files (default: false)",
            Json::Bool(false),
        ),
    );
    p.put("file_types", make_list_property("File extensions to filter by", "string"));
    p.put(
        "max_files",
        make_property_with_default(
            "number",
            "Maximum number of files to return (default: 1000)",
            Json::unsigned(1000),
        ),
    );
    assert(p@ =~= list_files_properties());
    let mut required: Vec<Json> = Vec::new();
    required.push(Json::text("directory"));
    assert(values_of(required@) =~= seq![JsonValue::Text("directory"@)]);
    ToolDefinition {
        name: "list_files".to_string(),
        description: Some(
            "List directory contents with filtering and metadata options".to_string(),
        ),
        input_schema: make_object_schema(p, required),
    }
}

/// The properties that the `code_search` tool takes.
pub open spec fn code_search_properties() -> Seq<(Seq<char>, JsonValue)> {
    seq![
        ("pattern"@, property("string"@, "The regex pattern to search for"@)),
        ("path"@, property("string"@, "File or directory path to search in"@)),
        (
            "case_sensitive"@,
            property_with_default(
                "boolean"@,
                "Whether search should be case sensitive (default: false)"@,
                JsonValue::Bool(false),
            ),
        ),
        (
            "whole_word"@,
            property_with_default(
                "boolean"@,
                "Whether to match whole words only (default: false)"@,
                JsonValue::Bool(false),
            ),
        ),
        ("file_type"@, property("string"@, "File type filter (e.g., 'rust', 'js', 'py')"@)),
        (
            "max_results"@,
            property_with_default(
                "number"@,
                "Maximum number of results (default: 50)"@,
                JsonValue::Number(NumericValue::PosInt(50)),
            ),
        ),
    ]
}

/// The `code_search` tool as it is advertised.
pub open spec fn code_search_tool() -> ToolDefinitionValue {
    ToolDefinitionValue {
        name: "code_search"@,
        description: Some("Search through code using ripgrep with advanced pattern matching"@),
        input_schema: object_schema(code_search_properties(), seq![JsonValue::Text("pattern"@), JsonValue::Text("path"@)]),
    }
}

fn code_search_definition() -> (r: ToolDefinition)
    ensures
        r@ == code_search_tool(),
{
    let mut p = ObjectBuilder::new();
    p.put("pattern", make_property("string", "The regex pattern to search for"));
    p.put("path", make_property("string", "File or directory path to search in"));
    p.put(
        "case_sensitive",
        make_property_with_default(
            "boolean",
            "Whether search should be case sensitive (default: false)",
            Json::Bool(false),
        ),
    );
    p.put(
        "whole_word",
        make_property_with_default(
            "boolean",
            "Whether to match whole words only (default: false)",
            Json::Bool(false),
        ),
    );
    p.put("file_type", make_property("string", "File type filter (e.g., 'rust', 'js', 'py')"));
    p.put(
        "max_results",
        make_property_with_default(
            "number",
            "Maximum number of results (default: 50)",
            Json::unsigned(50),
        ),
    );
    assert(p@ =~= code_search_properties());
    let mut required: Vec<Json> = Vec::new();
    required.push(Json::text("pattern"));
    required.push(Json::text("path"));
    assert(values_of(required@) =~= seq![JsonValue::Text("pattern"@), JsonValue::Text("path"@)]);
    ToolDefinition {
        name: "code_search".to_string(),
        description: Some(
            "Search through code using ripgrep with advanced pattern matching".to_string(),
        ),
        input_schema: make_object_schema(p, required),
    }
}

/// The properties that the `web_search` tool takes.
pub open spec fn web_search_properties() -> Seq<(Seq<char>, JsonValue)> {
    seq![
        ("query"@, property("string"@, "The search query string"@)),
        (
            "max_results"@,
            property_with_default(
                "number"@,
                "Maximum number of results (default: 5)"@,
                JsonValue::Number(NumericValue::PosInt(5)),
            ),
        ),
    ]
}

/// The `web_search` tool as it is advertised.
pub open spec fn web_search_tool() -> ToolDefinitionValue {
    ToolDefinitionValue {
        name: "web_search"@,
        description: Some("Perform web searches using DuckDuckGo to find current information"@),
        input_schema: object_schema(web_search_properties(), seq![JsonValue::Text("query"@)]),
    }
}

fn web_search_definition() -> (r: ToolDefinition)
    ensures
        r@ == web_search_tool(),
{
    let mut p = ObjectBuilder::new();
    p.put("query", make_property("string", "The search query string"));
    p.put(
        "max_results",
        make_property_with_default(
            "number",
            "Maximum number of results (default: 5)",
            Json::unsigned(5),
        ),
    );
    assert(p@ =~= web_search_properties());
    let mut required: Vec<Json> = Vec::new();
    required.push(Json::text("query"));
    assert(values_of(required@) =~= seq![JsonValue::Text("query"@)]);
    ToolDefinition {
        name: "web_search".to_string(),
        description: Some(
            "Perform web searches using DuckDuckGo to find current information".to_string(),
        ),
        input_schema: make_object_schema(p, required),
    }
}

/// A schema property that is a whole number between two bounds.
pub open spec fn bounded_property(description: Seq<char>, minimum: u64, maximum: u64) -> JsonValue {
    JsonValue::Object(
        seq![
            ("type"@, JsonValue::Text("integer"@)),
            ("description"@, JsonValue::Text(description)),
            ("minimum"@, JsonValue::Number(NumericValue::PosInt(minimum))),
            ("maximum"@, JsonValue::Number(NumericValue::PosInt(maximum))),
        ],
    )
}

/// A schema property that is one of a list of strings.
pub open spec fn choice_property(description: Seq<char>, choices: Seq<JsonValue>) -> JsonValue {
    JsonValue::Object(
        seq![
            ("type"@, JsonValue::Text("string"@)),
            ("description"@, JsonValue::Text(description)),
            ("enum"@, JsonValue::Array(choices)),
        ],
    )
}

/// The levels by which log entries can be filtered.
pub open spec fn level_choices() -> Seq<JsonValue> {
    seq![
        JsonValue::Text("error"@),
        JsonValue::Text("warn"@),
        JsonValue::Text("info"@),
        JsonValue::Text("debug"@),
        JsonValue::Text("trace"@),
    ]
}

/// The properties that the `read_logs` tool takes.
pub open spec fn read_logs_properties() -> Seq<(Seq<char>, JsonValue)> {
    seq![
        ("session_id"@, property("string"@, "The session ID to read logs for"@)),
        (
            "limit"@,
            bounded_property("Maximum number of log entries to return (default: 50)"@, 1, 1000),
        ),
        (
            "level_filter"@,
            choice_property(
                "Filter logs by level (error, warn, info, debug, trace). Shows specified level and higher priority levels."@,
                level_choices(),
            ),
        ),
    ]
}

/// The `read_logs` tool as it is advertised.
pub open spec fn read_logs_tool() -> ToolDefinitionValue {
    ToolDefinitionValue {
        name: "read_logs"@,
        description: Some(
            "Read log messages for a specific session. Can read from file logs or vector store depending on configuration."@,
        ),
        input_schema: object_schema(
            read_logs_properties(),
            seq![JsonValue::Text("session_id"@)],
        ),
    }
}

fn read_logs_definition() -> (r: ToolDefinition)
    ensures
        r@ == read_logs_tool(),
{
    let mut limit = ObjectBuilder::new();
    limit.put("type", Json::text("integer"));
    limit.put(
        "description",
        Json::text("Maximum number of log entries to return (default: 50)"),
    );
    limit.put("minimum", Json::unsigned(1));
    limit.put("maximum", Json::unsigned(1000));
    assert(limit@ =~= bounded_property(
        "Maximum number of log entries to return (default: 50)"@,
        1,
        1000,
    )->Object_0);
    let mut choices: Vec<Json> = Vec::new();
    choices.push(Json::text("error"));
    choices.push(Json::text("warn"));
    choices.push(Json::text("info"));
    choices.push(Json::text("debug"));
    choices.push(Json::text("trace"));
    assert(values_of(choices@) =~= level_choices());
    let mut level = ObjectBuilder::new();
    level.put("type", Json::text("string"));
    level.put(
        "description",
        Json::text(
            "Filter logs by level (error, warn, info, debug, trace). Shows specified level and higher priority levels.",
        ),
    );
    level.put("enum", Json::array(choices));
    assert(level@ =~= choice_property(
        "Filter logs by level (error, warn, info, debug, trace). Shows specified level and higher priority levels."@,
        level_choices(),
    )->Object_0);
    let mut p = ObjectBuilder::new();
    p.put("session_id", make_property("string", "The session ID to read logs for"));
    p.put("limit", limit.build());
    p.put("level_filter", level.build());
    assert(p@ =~= read_logs_properties());
    let mut required: Vec<Json> = Vec::new();
    required.push(Json::text("session_id"));
    assert(values_of(required@) =~= seq![JsonValue::Text("session_id"@)]);
    ToolDefinition {
        name: "read_logs".to_string(),
        description: Some(
            "Read log messages for a specific session. Can read from file logs or vector store depending on configuration.".to_string(),
        ),
        input_schema: make_object_schema(p, required),
    }
}

/// The tools that can be offered over the protocol, in the order in which
/// they are advertised.
pub open spec fn catalog() -> Seq<ToolDefinitionValue> {
    seq![
        bash_tool(),
        read_file_tool(),
        edit_file_tool(),
        list_files_tool(),
        code_search_tool(),
        web_search_tool(),
        read_logs_tool(),
    ]
}

/// Makes the definitions of the tools that can be offered.
pub struct McpToolFactory;

impl McpToolFactory {
    /// The definitions of all the tools in the catalog.
    pub fn create_mcp_tools() -> (r: Result<Vec<ToolDefinition>, BridgeError>)
        ensures
            r matches Ok(tools) && definitions_of(tools@) == catalog(),
    {
        let mut tools: Vec<ToolDefinition> = Vec::new();
        tools.push(bash_definition());
        tools.push(read_file_definition());
        tools.push(edit_file_definition());
        tools.push(list_files_definition());
        tools.push(code_search_definition());
        tools.push(web_search_definition());
        tools.push(read_logs_definition());
        assert(definitions_of(tools@) =~= catalog());
        Ok(tools)
    }
}

/// Why the bridge could not serve a request.
#[derive(Debug)]
pub enum BridgeError {
    /// No tool of this name was added to the bridge.
    ToolNotFound(String),
    /// The arguments could not be written as JSON.
    Arguments,
    /// The tool ran and failed, with this account of it.
    ToolFailed(String),
}

impl BridgeError {
    /// The error in words.
    pub open spec fn spec_message(self) -> Seq<char> {
        match self {
            BridgeError::ToolNotFound(name) => "Tool '"@ + name@ + "' not found"@,
            BridgeError::Arguments => "Tool arguments cannot be written as JSON"@,
            BridgeError::ToolFailed(account) => "Tool call failed: "@ + account@,
        }
    }

    /// The error in words.
    pub fn message(&self) -> (r: String)
        ensures
            r@ == self.spec_message(),
    {
        match self {
            BridgeError::ToolNotFound(name) => {
                let mut text = "Tool '".to_string();
                text.append(name.as_str());
                text.append("' not found");
                text
            },
            BridgeError::Arguments => "Tool arguments cannot be written as JSON".to_string(),
            BridgeError::ToolFailed(account) => {
                let mut text = "Tool call failed: ".to_string();
                text.append(account.as_str());
                text
            },
        }
    }
}

/// The host's tools that the bridge can expose.
#[derive(Debug, Clone, Copy, PartialEq, Eq, Structural)]
pub enum VegaToolConfig {
    Bash,
    ReadFile,
    EditFile,
    ListFiles,
    CodeSearch,
    WebSearch,
    ReadLogs,
}

/// What is advertised of one of the host's tools.
pub open spec fn tool_definition(config: VegaToolConfig) -> ToolDefinitionValue {
    match config {
        VegaToolConfig::Bash => bash_tool(),
        VegaToolConfig::ReadFile => read_file_tool(),
        VegaToolConfig::EditFile => edit_file_tool(),
        VegaToolConfig::ListFiles => list_files_tool(),
        VegaToolConfig::CodeSearch => code_search_tool(),
        VegaToolConfig::WebSearch => web_search_tool(),
        VegaToolConfig::ReadLogs => read_logs_tool(),
    }
}

/// The definition of a tool that the bridge holds: what is advertised of
/// the host's tool behind it, under the name it is held by.
pub open spec fn held_definition(config: VegaToolConfig, name: Seq<char>) -> ToolDefinitionValue {
    ToolDefinitionValue {
        name,
        description: tool_definition(config).description,
        input_schema: tool_definition(config).input_schema,
    }
}

/// The definitions of all the tools that a bridge holds, one for each, in
/// order.
pub open spec fn held_definitions(tools: Seq<(String, VegaToolConfig)>) -> Seq<
    ToolDefinitionValue,
> {
    Seq::new(tools.len(), |i: int| held_definition(tools[i].1, tools[i].0@))
}

/// An invocation that the host is to perform: which tool, and its
/// arguments as JSON text.
#[derive(Debug)]
pub struct ToolCall {
    pub config: VegaToolConfig,
    pub arguments: String,
}

/// What a finished tool run amounts to: the JSON document that its output
/// holds, or the output itself as a string where it is no JSON.
pub open spec fn outcome_doc(output: Seq<char>) -> JsonValue {
    match parsed_json(output) {
        Some(doc) => doc,
        None => JsonValue::Text(output),
    }
}

/// Offers the host's tools over the protocol. It keeps, by name, which of
/// the host's tools stands behind each offered tool.
#[derive(Debug)]
pub struct VegaToMcpBridge {
    tool_configs: Vec<(String, VegaToolConfig)>,
}

impl VegaToMcpBridge {
    /// The tools added so far, by name, in the order in which the names
    /// were first added.
    pub closed spec fn tools(&self) -> Seq<(String, VegaToolConfig)> {
        self.tool_configs@
    }

    /// No name was added twice.
    pub open spec fn wf(&self) -> bool {
        distinct_keys(self.tools())
    }

    /// A bridge without tools.
    pub fn new() -> (r: VegaToMcpBridge)
        ensures
            r.wf(),
            r.tools().len() == 0,
    {
        VegaToMcpBridge { tool_configs: Vec::new() }
    }

    /// Adds the tool `name`, in place of an earlier tool of that name.
    pub fn add_tool(&mut self, name: String, config: VegaToolConfig)
        requires
            old(self).wf(),
        ensures
            final(self).wf(),
            final(self).tools() == with_entry(old(self).tools(), name, config),
            value_of(final(self).tools(), name@) == Some(config),
    {
        let _ = put_key(&mut self.tool_configs, name, config);
    }

    /// The definition of the tool `name` in wire form: there is one for
    /// every tool that the bridge holds, and for no other name.
    pub fn to_mcp_tool_definition(&self, name: &str) -> (r: Result<ToolDefinition, BridgeError>)
        ensures
            match r {
                Ok(d) => value_of(self.tools(), name@) matches Some(config) && d@
                    == held_definition(config, name@),
                Err(e) => !has_key(self.tools(), name@) && (e matches BridgeError::ToolNotFound(n)
                    && n@ == name@),
            },
    {
        match get_key(&self.tool_configs, name) {
            Some(config) => Ok(Self::config_to_mcp_definition(name, *config)),
            None => Err(BridgeError::ToolNotFound(name.to_string())),
        }
    }

    /// What is advertised of one of the host's tools, under a name.
    pub fn config_to_mcp_definition(name: &str, config: VegaToolConfig) -> (r: ToolDefinition)
        ensures
            r@ == held_definition(config, name@),
    {
        let advertised = match config {
            VegaToolConfig::Bash => bash_definition(),
            VegaToolConfig::ReadFile => read_file_definition(),
            VegaToolConfig::EditFile => edit_file_definition(),
            VegaToolConfig::ListFiles => list_files_definition(),
            VegaToolConfig::CodeSearch => code_search_definition(),
            VegaToolConfig::WebSearch => web_search_definition(),
            VegaToolConfig::ReadLogs => read_logs_definition(),
        };
        ToolDefinition {
            name: name.to_string(),
            description: advertised.description,
            input_schema: advertised.input_schema,
        }
    }

    /// The definitions of all the tools that the bridge holds: one for
    /// each, under its name, in the order in which the names were added.
    pub fn get_all_tools(&self) -> (r: Result<Vec<ToolDefinition>, BridgeError>)
        ensures
            r matches Ok(tools) && definitions_of(tools@) == held_definitions(self.tools())
                && tools@.len() == self.tools().len() && forall|i: int|
                0 <= i < tools@.len() ==> (#[trigger] tools@[i])@ == held_definition(
                    self.tools()[i].1,
                    self.tools()[i].0@,
                ),
    {
        let mut tools: Vec<ToolDefinition> = Vec::new();
        let mut i: usize = 0;
        while i < self.tool_configs.len()
            invariant
                i <= self.tool_configs.len(),
                tools@.len() == i,
                forall|k: int|
                    0 <= k < i ==> (#[trigger] tools@[k])@ == held_definition(
                        self.tool_configs@[k].1,
                        self.tool_configs@[k].0@,
                    ),
            decreases self.tool_configs.len() - i,
        {
            tools.push(
                Self::config_to_mcp_definition(
                    self.tool_configs[i].0.as_str(),
                    self.tool_configs[i].1,
                ),
            );
            i += 1;
        }
        assert(definitions_of(tools@) =~= held_definitions(self.tools()));
        Ok(tools)
    }

    /// The names of all the tools added, in order.
    pub fn list_tools(&self) -> (names: Vec<String>)
        ensures
            names@.len() == self.tools().len(),
            forall|i: int| 0 <= i < names@.len() ==> names@[i]@ == self.tools()[i].0@,
    {
        key_list(&self.tool_configs)
    }

    /// Prepares a call of the tool `name`: which of the host's tools is to
    /// run, and its arguments as JSON text.
    pub fn call_tool(&self, name: &str, arguments: &Json) -> (r: Result<ToolCall, BridgeError>)
        ensures
            match r {
                Ok(call) => value_of(self.tools(), name@) == Some(call.config) && json_text(
                    arguments@,
                ) == Some(call.arguments@),
                Err(BridgeError::ToolNotFound(n)) => !has_key(self.tools(), name@) && n@ == name@,
                Err(BridgeError::Arguments) => has_key(self.tools(), name@) && json_text(
                    arguments@,
                ).is_none(),
                Err(_) => false,
            },
    {
        match get_key(&self.tool_configs, name) {
            Some(config) => match arguments.to_text() {
                Some(text) => Ok(ToolCall { config: *config, arguments: text }),
                None => Err(BridgeError::Arguments),
            },
            None => Err(BridgeError::ToolNotFound(name.to_string())),
        }
    }

    /// Turns what the host's tool gave back into the result of the call:
    /// the JSON that the output holds, or the output as a string; a failure
    /// of the tool becomes a `ToolFailed` error with the tool's account.
    pub fn complete_call(outcome: Result<String, String>) -> (r: Result<Json, BridgeError>)
        ensures
            match outcome {
                Ok(output) => (r matches Ok(doc) && doc@ == outcome_doc(output@)),
                Err(account) => (r matches Err(BridgeError::ToolFailed(a)) && a@ == account@),
            },
    {
        match outcome {
            Ok(output) => match Json::parse(output.as_str()) {
                Some(doc) => Ok(doc),
                None => Ok(Json::Text(output)),
            },
            Err(account) => Err(BridgeError::ToolFailed(account)),
        }
    }
}

/// A tool of a remote server as the host's agent sees it.
#[derive(Debug)]
pub struct VegaMcpTool {
    name: String,
    definition: ToolDefinition,
}

impl VegaMcpTool {
    /// The name under which the tool is called.
    pub closed spec fn tool_name(&self) -> Seq<char> {
        self.name@
    }

    /// The definition that the server gave.
    pub closed spec fn definition(&self) -> ToolDefinitionValue {
        self.definition@
    }

    /// The tool `name` with the definition that the server gave.
    pub fn new(name: String, definition: ToolDefinition) -> (r: Self)
        ensures
            r.tool_name() == name@,
            r.definition() == definition@,
    {
        VegaMcpTool { name, definition }
    }

    /// The name under which the tool is called.
    pub fn name(&self) -> (r: &str)
        ensures
            r@ == self.tool_name(),
    {
        self.name.as_str()
    }

    /// What the tool does, in the server's words, or a note that the
    /// server said nothing.
    pub fn description(&self) -> (r: &str)
        ensures
            r@ == match self.definition().description {
                Some(text) => text,
                None => "No description available"@,
            },
    {
        match &self.definition.description {
            Some(text) => text.as_str(),
            None => "No description available",
        }
    }

    /// The schema of the tool's arguments.
    pub fn input_schema(&self) -> (r: Json)
        ensures
            r@ == self.definition().input_schema,
    {
        self.definition.input_schema.clone()
    }
}

/// What a `tools/call` request asks for.
#[derive(Debug)]
pub struct McpToolCallRequest {
    /// The tool to call.
    pub name: String,
    /// The arguments for the tool.
    pub arguments: Option<Json>,
}

impl McpToolCallRequest {
    /// Reads the request from the parameters of a `tools/call`: `None`
    /// where they hold no string `name`.
    pub fn from_json(params: &Json) -> (r: Option<McpToolCallRequest>)
        ensures
            match r {
                Some(call) => params@.member("name"@) matches Some(n) && n.text() == Some(
                    call.name@,
                ) && optional_view(call.arguments) == params@.member("arguments"@),
                None => match params@.member("name"@) {
                    Some(n) => n.text().is_none(),
                    None => true,
                },
            },
    {
        let name = match params.get("name") {
            Some(n) => n.as_str(),
            None => None,
        };
        match name {
            Some(name) => Some(
                McpToolCallRequest {
                    name: name.to_string(),
                    arguments: match params.get("arguments") {
                        Some(a) => Some(a.clone()),
                        None => None,
                    },
                },
            ),
            None => None,
        }
    }
}

/// One piece of what a tool gave back.
#[derive(Debug)]
pub struct McpContent {
    /// The kind of content, `text` for a text.
    pub content_type: String,
    /// The content itself.
    pub text: Option<String>,
}

/// The outcome of a tool call as the caller gets it: the content, and
/// whether the call failed.
#[derive(Debug)]
pub struct McpToolCallResponse {
    pub content: Vec<McpContent>,
    pub is_error: Option<bool>,
}

/// The wire form of a piece of content; `text` is left out where there is
/// none.
pub open spec fn content_doc(content_type: Seq<char>, text: Option<Seq<char>>) -> JsonValue {
    match text {
        Some(t) => JsonValue::Object(
            seq![("type"@, JsonValue::Text(content_type)), ("text"@, JsonValue::Text(t))],
        ),
        None => JsonValue::Object(seq![("type"@, JsonValue::Text(content_type))]),
    }
}

/// The wire form of an outcome; `isError` is left out where it is not
/// known.
pub open spec fn envelope_doc(content: Seq<JsonValue>, is_error: Option<bool>) -> JsonValue {
    match is_error {
        Some(b) => JsonValue::Object(
            seq![("content"@, JsonValue::Array(content)), ("isError"@, JsonValue::Bool(b))],
        ),
        None => JsonValue::Object(seq![("content"@, JsonValue::Array(content))]),
    }
}

/// The outcome that holds one text.
pub open spec fn text_outcome(text: Seq<char>, is_error: bool) -> JsonValue {
    envelope_doc(seq![content_doc("text"@, Some(text))], Some(is_error))
}

impl McpContent {
    /// A piece of text content.
    pub fn text(text: String) -> (r: McpContent)
        ensures
            r.content_type@ == "text"@,
            optional_text(r.text) == Some(text@),
    {
        McpContent { content_type: "text".to_string(), text: Some(text) }
    }

    /// The wire form of the content.
    pub fn to_json(&self) -> (r: Json)
        ensures
            r@ == content_doc(self.content_type@, optional_text(self.text)),
    {
        let mut b = ObjectBuilder::new();
        b.put("type", Json::text(self.content_type.as_str()));
        match &self.text {
            Some(t) => {
                b.put("text", Json::text(t.as_str()));
            },
            None => {},
        }
        assert(b@ =~= content_doc(self.content_type@, optional_text(self.text))->Object_0);
        b.build()
    }
}

/// The wire forms of a list of content, in order.
pub open spec fn contents_of(items: Seq<McpContent>) -> Seq<JsonValue> {
    Seq::new(items.len(), |i: int| content_doc(items[i].content_type@, optional_text(items[i].text)))
}

impl McpToolCallResponse {
    /// The outcome that holds one text.
    pub fn of_text(text: String, is_error: bool) -> (r: McpToolCallResponse)
        ensures
            contents_of(r.content@) == seq![content_doc("text"@, Some(text@))],
            r.is_error == Some(is_error),
    {
        let mut content: Vec<McpContent> = Vec::new();
        content.push(McpContent::text(text));
        assert(contents_of(content@) =~= seq![content_doc("text"@, Some(text@))]);
        McpToolCallResponse { content, is_error: Some(is_error) }
    }

    /// The wire form of the outcome.
    pub fn to_json(&self) -> (r: Json)
        ensures
            r@ == envelope_doc(contents_of(self.content@), self.is_error),
    {
        let mut items: Vec<Json> = Vec::new();
        let mut i: usize = 0;
        while i < self.content.len()
            invariant
                i <= self.content.len(),
                items@.len() == i,
                forall|k: int|
                    0 <= k < i ==> items@[k]@ == content_doc(
                        self.content@[k].content_type@,
                        optional_text(self.content@[k].text),
                    ),
            decreases self.content.len() - i,
        {
            items.push(self.content[i].to_json());
            i += 1;
        }
        assert(values_of(items@) =~= contents_of(self.content@));
        let mut b = ObjectBuilder::new();
        b.put("content", Json::array(items));
        match self.is_error {
            Some(flag) => {
                b.put("isError", Json::Bool(flag));
            },
            None => {},
        }
        assert(b@ =~= envelope_doc(contents_of(self.content@), self.is_error)->Object_0);
        b.build()
    }
}

} // verus!
