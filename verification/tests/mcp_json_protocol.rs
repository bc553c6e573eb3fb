use vega::mcp::bridge::ToolDefinition;
use vega::mcp::json::{Json, Numeric, ObjectBuilder};
use vega::mcp::protocol::{
    ErrorCode, McpError, McpMessage, Notification, Request, Response,
};

fn text_of(doc: &Json) -> String {
    doc.to_text().unwrap()
}

#[test]
fn json_parse_reads_every_kind_of_value() {
    let doc = Json::parse(r#"{"a":null,"b":true,"c":-3,"d":"x","e":[1,2.5],"f":{}}"#).unwrap();
    assert!(doc.get("a").unwrap().is_null());
    assert!(matches!(doc.get("b"), Some(Json::Bool(true))));
    assert_eq!(doc.get("c").unwrap().as_i64(), Some(-3));
    assert_eq!(doc.get("c").unwrap().as_u64(), None);
    assert_eq!(doc.get("d").unwrap().as_str(), Some("x"));
    let items = doc.get("e").unwrap().as_array().unwrap();
    assert_eq!(items.len(), 2);
    assert_eq!(items[0].as_u64(), Some(1));
    assert!(matches!(&items[1], Json::Number(Numeric::Float(t)) if t == "2.5"));
    assert!(matches!(doc.get("f"), Some(Json::Object(members)) if members.is_empty()));
    assert!(doc.get("missing").is_none());
    assert!(Json::Null.get("a").is_none());
}

#[test]
fn json_parse_rejects_what_is_no_json() {
    assert!(Json::parse("").is_none());
    assert!(Json::parse("not json").is_none());
    assert!(Json::parse("{\"a\":").is_none());
    assert!(Json::parse("{} {}").is_none());
}

#[test]
fn json_text_is_compact_and_pretty_is_indented() {
    let mut inner = ObjectBuilder::new();
    inner.put("k", Json::unsigned(1));
    let mut outer = ObjectBuilder::new();
    outer.put("z", Json::array(vec![Json::Bool(false), Json::Null]));
    outer.put("a", inner.build());
    let doc = outer.build();
    assert_eq!(text_of(&doc), r#"{"a":{"k":1},"z":[false,null]}"#);
    assert_eq!(
        doc.to_pretty_text().unwrap(),
        "{\n  \"a\": {\n    \"k\": 1\n  },\n  \"z\": [\n    false,\n    null\n  ]\n}"
    );
}

#[test]
fn json_numbers_keep_their_value() {
    assert_eq!(text_of(&Json::unsigned(18446744073709551615)), "18446744073709551615");
    assert_eq!(text_of(&Json::integer(-32601)), "-32601");
    assert_eq!(text_of(&Json::integer(7)), "7");
    assert_eq!(Json::parse("18446744073709551615").unwrap().as_u64(), Some(u64::MAX));
    assert_eq!(Json::parse("18446744073709551615").unwrap().as_i64(), None);
    assert_eq!(Json::parse("-9223372036854775808").unwrap().as_i64(), Some(i64::MIN));
    assert_eq!(text_of(&Json::parse("1.5e3").unwrap()), "1500.0");
    assert_eq!(text_of(&Json::Number(Numeric::Float("no number".to_string()))), "null");
}

#[test]
fn json_get_takes_the_last_of_repeated_members() {
    let mut b = ObjectBuilder::new();
    b.put("k", Json::unsigned(1));
    b.put("k", Json::unsigned(2));
    let doc = b.build();
    assert_eq!(doc.get("k").unwrap().as_u64(), Some(2));
    assert_eq!(text_of(&doc), r#"{"k":2}"#);
}

#[test]
fn json_clone_is_deep() {
    let doc = Json::parse(r#"{"a":[1,{"b":"c"}],"d":null}"#).unwrap();
    let copy = doc.clone();
    assert_eq!(text_of(&copy), text_of(&doc));
    assert_eq!(text_of(&copy), r#"{"a":[1,{"b":"c"}],"d":null}"#);
}

#[test]
fn error_codes_have_their_numbers() {
    assert_eq!(ErrorCode::ParseError.code(), -32700);
    assert_eq!(ErrorCode::InvalidRequest.code(), -32600);
    assert_eq!(ErrorCode::MethodNotFound.code(), -32601);
    assert_eq!(ErrorCode::InvalidParams.code(), -32602);
    assert_eq!(ErrorCode::InternalError.code(), -32603);
    assert_eq!(ErrorCode::Other(5).code(), 5);
    assert_eq!(ErrorCode::from_code(-32601), ErrorCode::MethodNotFound);
    assert_eq!(ErrorCode::from_code(-32700), ErrorCode::ParseError);
    assert_eq!(ErrorCode::from_code(42), ErrorCode::Other(42));
}

#[test]
fn request_wire_form() {
    let request =
        Request { id: Json::unsigned(1), method: "tools/list".to_string(), params: None };
    assert_eq!(
        McpMessage::Request(request).encode().unwrap(),
        r#"{"id":1,"method":"tools/list"}"#
    );
    let request = Request {
        id: Json::text("abc"),
        method: "tools/call".to_string(),
        params: Some(Json::parse(r#"{"name":"echo"}"#).unwrap()),
    };
    assert_eq!(
        McpMessage::Request(request).encode().unwrap(),
        r#"{"id":"abc","method":"tools/call","params":{"name":"echo"}}"#
    );
}

#[test]
fn response_wire_form() {
    let ok = Response { id: Json::unsigned(3), result: Some(Json::Bool(true)), error: None };
    assert_eq!(McpMessage::Response(ok).encode().unwrap(), r#"{"id":3,"result":true}"#);
    let empty = Response { id: Json::unsigned(3), result: None, error: None };
    assert_eq!(McpMessage::Response(empty).encode().unwrap(), r#"{"id":3,"result":null}"#);
    let failed = Response {
        id: Json::unsigned(4),
        result: None,
        error: Some(McpError {
            code: ErrorCode::MethodNotFound,
            message: "Method 'x' not found".to_string(),
            data: None,
        }),
    };
    assert_eq!(
        McpMessage::Response(failed).encode().unwrap(),
        r#"{"error":{"code":-32601,"data":null,"message":"Method 'x' not found"},"id":4}"#
    );
}

#[test]
fn notification_wire_form() {
    let note = Notification { method: "notifications/initialized".to_string(), params: None };
    assert_eq!(
        McpMessage::Notification(note).encode().unwrap(),
        r#"{"method":"notifications/initialized"}"#
    );
}

#[test]
fn decode_tells_the_three_kinds_apart() {
    match McpMessage::decode(r#"{"id":1,"method":"tools/list","params":null}"#) {
        Some(McpMessage::Request(r)) => {
            assert_eq!(r.id.as_u64(), Some(1));
            assert_eq!(r.method, "tools/list");
            assert!(r.params.is_none());
        }
        other => panic!("unexpected: {:?}", other),
    }
    match McpMessage::decode(r#"{"method":"notifications/progress","params":{"p":1}}"#) {
        Some(McpMessage::Notification(n)) => {
            assert_eq!(n.method, "notifications/progress");
            assert_eq!(text_of(&n.params.unwrap()), r#"{"p":1}"#);
        }
        other => panic!("unexpected: {:?}", other),
    }
    match McpMessage::decode(r#"{"id":"x","result":{"ok":true}}"#) {
        Some(McpMessage::Response(r)) => {
            assert_eq!(r.id.as_str(), Some("x"));
            assert_eq!(text_of(&r.result.unwrap()), r#"{"ok":true}"#);
            assert!(r.error.is_none());
        }
        other => panic!("unexpected: {:?}", other),
    }
    match McpMessage::decode(r#"{"id":2,"error":{"code":-32602,"message":"bad","data":[1]}}"#) {
        Some(McpMessage::Response(r)) => {
            assert!(r.result.is_none());
            let e = r.error.unwrap();
            assert_eq!(e.code, ErrorCode::InvalidParams);
            assert_eq!(e.message, "bad");
            assert_eq!(text_of(&e.data.unwrap()), "[1]");
        }
        other => panic!("unexpected: {:?}", other),
    }
}

#[test]
fn decode_rejects_what_is_no_message() {
    assert!(McpMessage::decode("not json").is_none());
    assert!(McpMessage::decode("[1,2]").is_none());
    assert!(McpMessage::decode("{}").is_none());
    assert!(McpMessage::decode(r#"{"id":1}"#).is_none());
    assert!(McpMessage::decode(r#"{"method":5,"id":1}"#).is_none());
    assert!(McpMessage::decode(r#"{"id":1,"error":{"code":"x","message":"m"}}"#).is_none());
    assert!(McpMessage::decode(r#"{"id":1,"error":{"code":1}}"#).is_none());
}

#[test]
fn messages_survive_the_wire() {
    let lines = [
        r#"{"id":1,"method":"tools/list"}"#,
        r#"{"id":7,"method":"tools/call","params":{"arguments":{"a":[1,2]},"name":"echo"}}"#,
        r#"{"id":1,"result":null}"#,
        r#"{"error":{"code":-32603,"data":null,"message":"oops"},"id":9}"#,
        r#"{"method":"notifications/initialized"}"#,
    ];
    for line in lines {
        let message = McpMessage::decode(line).unwrap();
        assert_eq!(message.encode().unwrap(), line);
    }
}

fn round_trip(definition: &ToolDefinition) -> ToolDefinition {
    let wire = definition.to_json().to_text().unwrap();
    ToolDefinition::from_json(&Json::parse(&wire).unwrap()).unwrap()
}

fn assert_same(a: &ToolDefinition, b: &ToolDefinition) {
    assert_eq!(a.name, b.name);
    assert_eq!(a.description, b.description);
    assert_eq!(text_of(&a.input_schema), text_of(&b.input_schema));
}

#[test]
fn tool_definition_round_trip() {
    let schemas = [
        "{}",
        r#"{"type":"object","properties":{"a":{"type":"object","properties":{"b":{"type":"string"}}}}}"#,
        r#"{"type":"array","items":[{"type":"number"},{"enum":["x","y",null]}],"minItems":2}"#,
        "null",
        "[]",
    ];
    for schema in schemas {
        let definition = ToolDefinition {
            name: "echo".to_string(),
            description: Some("Repeats its input".to_string()),
            input_schema: Json::parse(schema).unwrap(),
        };
        assert_same(&round_trip(&definition), &definition);
        let bare = ToolDefinition {
            name: String::new(),
            description: None,
            input_schema: Json::parse(schema).unwrap(),
        };
        assert_same(&round_trip(&bare), &bare);
    }
}

#[test]
fn tool_definition_wire_form() {
    let definition = ToolDefinition {
        name: "echo".to_string(),
        description: Some("...".to_string()),
        input_schema: Json::parse("{}").unwrap(),
    };
    assert_eq!(
        text_of(&definition.to_json()),
        r#"{"description":"...","input_schema":{},"name":"echo"}"#
    );
    assert!(ToolDefinition::from_json(&Json::parse(r#"{"name":"x"}"#).unwrap()).is_none());
    assert!(ToolDefinition::from_json(&Json::parse(r#"{"input_schema":{}}"#).unwrap()).is_none());
    assert!(ToolDefinition::from_json(
        &Json::parse(r#"{"name":"x","description":3,"input_schema":{}}"#).unwrap()
    )
    .is_none());
    let read = ToolDefinition::from_json(
        &Json::parse(r#"{"name":"x","description":null,"input_schema":[]}"#).unwrap(),
    )
    .unwrap();
    assert!(read.description.is_none());
}

#[test]
fn documents_and_serde_values_convert_both_ways() {
    let value: serde_json::Value =
        serde_json::from_str(r#"{"b":[1,-2,3.5,"x",null,true],"a":{"k":"v"}}"#).unwrap();
    let doc = Json::from_value(&value);
    match &doc {
        Json::Object(members) => {
            let keys: Vec<&str> = members.iter().map(|(k, _)| k.as_str()).collect();
            assert_eq!(keys, vec!["a", "b"]);
        }
        other => panic!("unexpected: {:?}", other),
    }
    let items = doc.get("b").unwrap().as_array().unwrap();
    assert_eq!(items[0].as_u64(), Some(1));
    assert_eq!(items[1].as_i64(), Some(-2));
    assert!(matches!(&items[2], Json::Number(Numeric::Float(t)) if t == "3.5"));
    assert_eq!(items[3].as_str(), Some("x"));
    assert!(items[4].is_null());
    assert!(matches!(items[5], Json::Bool(true)));
    assert_eq!(doc.to_value(), value);

    let mut b = ObjectBuilder::new();
    b.put("z", Json::integer(-1));
    b.put("a", Json::Number(Numeric::NegInt(5)));
    b.put("z", Json::text("last"));
    let lowered = b.build().to_value();
    assert_eq!(lowered, serde_json::from_str::<serde_json::Value>(r#"{"a":5,"z":"last"}"#).unwrap());
}

#[test]
fn a_value_is_written_as_its_document_is() {
    let texts = [
        r#"{"z":[1,-2,2.5e3,"x",null,true],"a":{"k":"v"}}"#,
        "[]",
        "null",
        r#""only a string""#,
        "18446744073709551615",
    ];
    for text in texts {
        let doc = Json::parse(text).unwrap();
        let value = doc.to_value();
        assert_eq!(serde_json::to_string(&value).ok(), doc.to_text());
        assert_eq!(serde_json::to_string_pretty(&value).ok(), doc.to_pretty_text());
    }
    let mut b = ObjectBuilder::new();
    b.put("k", Json::Number(Numeric::Float("not a number".to_string())));
    b.put("k", Json::Number(Numeric::NegInt(4)));
    b.put("a", Json::Null);
    let doc = b.build();
    assert_eq!(serde_json::to_string(&doc.to_value()).unwrap(), r#"{"a":null,"k":4}"#);
    assert_eq!(doc.to_text().unwrap(), r#"{"a":null,"k":4}"#);
}
