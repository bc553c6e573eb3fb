//! Protocol messages and their wire form: one JSON object per line.

use super::json::{json_text, lookup, optional_text, optional_view, parsed_json};
use super::json::{Json, JsonValue, ObjectBuilder};
use vstd::prelude::*;

verus! {

/// Category of a protocol error, carried on the wire as an integer.
#[derive(Debug, Clone, Copy, PartialEq, Eq, Structural)]
pub enum ErrorCode {
    ParseError,
    InvalidRequest,
    MethodNotFound,
    InvalidParams,
    InternalError,
    Other(i64),
}

impl ErrorCode {
    /// The integer that stands for the category on the wire.
    pub open spec fn spec_code(self) -> int {
        match self {
            ErrorCode::ParseError => -32700,
            ErrorCode::InvalidRequest => -32600,
            ErrorCode::MethodNotFound => -32601,
            ErrorCode::InvalidParams => -32602,
            ErrorCode::InternalError => -32603,
            ErrorCode::Other(n) => n as int,
        }
    }

    /// The category that an integer stands for.
    pub open spec fn spec_from_code(n: int) -> ErrorCode
        recommends
            i64::MIN <= n <= i64::MAX,
    {
        if n == -32700 {
            ErrorCode::ParseError
        } else if n == -32600 {
            ErrorCode::InvalidRequest
        } else if n == -32601 {
            ErrorCode::MethodNotFound
        } else if n == -32602 {
            ErrorCode::InvalidParams
        } else if n == -32603 {
            ErrorCode::InternalError
        } else {
            ErrorCode::Other(n as i64)
        }
    }

    /// The integer that stands for the category on the wire.
    pub fn code(&self) -> (r: i64)
        ensures
            r == self.spec_code(),
    {
        match self {
            ErrorCode::ParseError => -32700,
            ErrorCode::InvalidRequest => -32600,
            ErrorCode::MethodNotFound => -32601,
            ErrorCode::InvalidParams => -32602,
            ErrorCode::InternalError => -32603,
            ErrorCode::Other(n) => *n,
        }
    }

    /// The category that an integer stands for.
    pub fn from_code(n: i64) -> (r: ErrorCode)
        ensures
            r == ErrorCode::spec_from_code(n as int),
    {
        if n == -32700 {
            ErrorCode::ParseError
        } else if n == -32600 {
            ErrorCode::InvalidRequest
        } else if n == -32601 {
            ErrorCode::MethodNotFound
        } else if n == -32602 {
            ErrorCode::InvalidParams
        } else if n == -32603 {
            ErrorCode::InternalError
        } else {
            ErrorCode::Other(n)
        }
    }
}

/// Reading back the integer of a category gives a category with the same
/// integer.
pub proof fn lemma_error_code_round_trip(c: ErrorCode)
    ensures
        ErrorCode::spec_from_code(c.spec_code()).spec_code() == c.spec_code(),
{
}

/// The error part of a response.
#[derive(Debug)]
pub struct McpError {
    pub code: ErrorCode,
    pub message: String,
    pub data: Option<Json>,
}

/// A call that expects a response with the same `id`.
#[derive(Debug)]
pub struct Request {
    pub id: Json,
    pub method: String,
    pub params: Option<Json>,
}

/// The answer to a request: a result, or an error.
#[derive(Debug)]
pub struct Response {
    pub id: Json,
    pub result: Option<Json>,
    pub error: Option<McpError>,
}

/// A message that expects no answer.
#[derive(Debug)]
pub struct Notification {
    pub method: String,
    pub params: Option<Json>,
}

/// Any message of the protocol.
#[derive(Debug)]
pub enum McpMessage {
    Request(Request),
    Response(Response),
    Notification(Notification),
}

pub ghost struct McpErrorValue {
    pub code: ErrorCode,
    pub message: Seq<char>,
    pub data: Option<JsonValue>,
}

pub ghost struct RequestValue {
    pub id: JsonValue,
    pub method: Seq<char>,
    pub params: Option<JsonValue>,
}

pub ghost struct ResponseValue {
    pub id: JsonValue,
    pub result: Option<JsonValue>,
    pub error: Option<McpErrorValue>,
}

pub ghost struct NotificationValue {
    pub method: Seq<char>,
    pub params: Option<JsonValue>,
}

pub ghost enum McpMessageValue {
    Request(RequestValue),
    Response(ResponseValue),
    Notification(NotificationValue),
}

impl View for McpError {
    type V = McpErrorValue;

    open spec fn view(&self) -> McpErrorValue {
        McpErrorValue { code: self.code, message: self.message@, data: optional_view(self.data) }
    }
}

impl View for Request {
    type V = RequestValue;

    open spec fn view(&self) -> RequestValue {
        RequestValue { id: self.id@, method: self.method@, params: optional_view(self.params) }
    }
}

/// The value of an optional error.
pub open spec fn optional_error(error: Option<McpError>) -> Option<McpErrorValue> {
    match error {
        Some(e) => Some(e@),
        None => None,
    }
}

impl View for Response {
    type V = ResponseValue;

    open spec fn view(&self) -> ResponseValue {
        ResponseValue {
            id: self.id@,
            result: optional_view(self.result),
            error: optional_error(self.error),
        }
    }
}

impl View for Notification {
    type V = NotificationValue;

    open spec fn view(&self) -> NotificationValue {
        NotificationValue { method: self.method@, params: optional_view(self.params) }
    }
}

impl View for McpMessage {
    type V = McpMessageValue;

    open spec fn view(&self) -> McpMessageValue {
        match self {
            McpMessage::Request(r) => McpMessageValue::Request(r@),
            McpMessage::Response(r) => McpMessageValue::Response(r@),
            McpMessage::Notification(n) => McpMessageValue::Notification(n@),
        }
    }
}

/// The value of an optional message.
pub open spec fn optional_message(message: Option<McpMessage>) -> Option<McpMessageValue> {
    match message {
        Some(m) => Some(m@),
        None => None,
    }
}

/// The wire form of an error.
pub open spec fn error_doc(e: McpErrorValue) -> JsonValue {
    JsonValue::Object(
        seq![
            ("code"@, JsonValue::of_integer(e.code.spec_code() as i64)),
            ("message"@, JsonValue::Text(e.message)),
            (
                "data"@,
                match e.data {
                    Some(d) => d,
                    None => JsonValue::Null,
                },
            ),
        ],
    )
}

/// The wire form of a request; `params` is left out where there are none.
pub open spec fn request_doc(r: RequestValue) -> JsonValue {
    match r.params {
        Some(p) => JsonValue::Object(
            seq![("id"@, r.id), ("method"@, JsonValue::Text(r.method)), ("params"@, p)],
        ),
        None => JsonValue::Object(seq![("id"@, r.id), ("method"@, JsonValue::Text(r.method))]),
    }
}

/// The wire form of a response: the error where there is one, else the
/// result, `null` where there is none.
pub open spec fn response_doc(r: ResponseValue) -> JsonValue {
    match r.error {
        Some(e) => JsonValue::Object(seq![("id"@, r.id), ("error"@, error_doc(e))]),
        None => JsonValue::Object(
            seq![
                ("id"@, r.id),
                (
                    "result"@,
                    match r.result {
                        Some(d) => d,
                        None => JsonValue::Null,
                    },
                ),
            ],
        ),
    }
}

/// The wire form of a notification; `params` is left out where there are
/// none.
pub open spec fn notification_doc(n: NotificationValue) -> JsonValue {
    match n.params {
        Some(p) => JsonValue::Object(seq![("method"@, JsonValue::Text(n.method)), ("params"@, p)]),
        None => JsonValue::Object(seq![("method"@, JsonValue::Text(n.method))]),
    }
}

/// The wire form of a message.
pub open spec fn message_doc(m: McpMessageValue) -> JsonValue {
    match m {
        McpMessageValue::Request(r) => request_doc(r),
        McpMessageValue::Response(r) => response_doc(r),
        McpMessageValue::Notification(n) => notification_doc(n),
    }
}

/// A member of an object that is there and not `null`.
pub open spec fn present(doc: JsonValue, key: Seq<char>) -> Option<JsonValue> {
    match doc.member(key) {
        Some(d) => if d == JsonValue::Null {
            None
        } else {
            Some(d)
        },
        None => None,
    }
}

/// The error that a document holds: an object with an integer `code` and a
/// string `message`.
pub open spec fn error_of(doc: JsonValue) -> Option<McpErrorValue> {
    match (doc.member("code"@), doc.member("message"@)) {
        (Some(c), Some(m)) => match (c.integer(), m.text()) {
            (Some(n), Some(t)) => Some(
                McpErrorValue {
                    code: ErrorCode::spec_from_code(n as int),
                    message: t,
                    data: present(doc, "data"@),
                },
            ),
            _ => None,
        },
        _ => None,
    }
}

/// The response that a document without `method` holds.
pub open spec fn response_of(doc: JsonValue) -> Option<ResponseValue> {
    match doc.member("id"@) {
        Some(id) => match present(doc, "error"@) {
            Some(e) => match error_of(e) {
                Some(err) => Some(ResponseValue { id, result: None, error: Some(err) }),
                None => None,
            },
            None => match doc.member("result"@) {
                Some(r) => Some(ResponseValue { id, result: Some(r), error: None }),
                None => None,
            },
        },
        None => None,
    }
}

/// The message that a document holds. With a string `method` it is a
/// request where an `id` is present, else a notification; without `method`
/// it is a response where it has an `id` and a result or a well-formed
/// error. Anything else is no message.
pub open spec fn message_of(doc: JsonValue) -> Option<McpMessageValue> {
    match doc.member("method"@) {
        Some(m) => match m.text() {
            Some(method) => match present(doc, "id"@) {
                Some(id) => Some(
                    McpMessageValue::Request(
                        RequestValue { id, method, params: present(doc, "params"@) },
                    ),
                ),
                None => Some(
                    McpMessageValue::Notification(
                        NotificationValue { method, params: present(doc, "params"@) },
                    ),
                ),
            },
            None => None,
        },
        None => match response_of(doc) {
            Some(r) => Some(McpMessageValue::Response(r)),
            None => None,
        },
    }
}

/// The text that a line of input holds once the framing is taken off.
pub open spec fn line_message(line: Seq<char>) -> Option<McpMessageValue> {
    match parsed_json(line) {
        Some(doc) => message_of(doc),
        None => None,
    }
}

/// Whether a message is one that the wire can carry without loss. An
/// absent value and `null` are one on the wire, so a request's `id`, and
/// `params` and `data` where they are given, are not `null`; a response
/// holds a result or an error, not both and not neither; and an error code
/// outside the five categories is not one of their numbers.
pub open spec fn wire_safe(m: McpMessageValue) -> bool {
    match m {
        McpMessageValue::Request(r) => r.id != JsonValue::Null && r.params != Some(
            JsonValue::Null,
        ),
        McpMessageValue::Notification(n) => n.params != Some(JsonValue::Null),
        McpMessageValue::Response(r) => match r.error {
            Some(e) => r.result.is_none() && e.data != Some(JsonValue::Null)
                && ErrorCode::spec_from_code(e.code.spec_code()) == e.code,
            None => r.result.is_some(),
        },
    }
}

/// The member names of messages differ from each other.
pub proof fn lemma_message_keys()
    ensures
        "id"@ != "method"@,
        "id"@ != "params"@,
        "id"@ != "result"@,
        "id"@ != "error"@,
        "method"@ != "params"@,
        "method"@ != "result"@,
        "method"@ != "error"@,
        "result"@ != "error"@,
        "code"@ != "message"@,
        "code"@ != "data"@,
        "message"@ != "data"@,
{
    reveal_strlit("id");
    reveal_strlit("method");
    reveal_strlit("params");
    reveal_strlit("result");
    reveal_strlit("error");
    reveal_strlit("code");
    reveal_strlit("message");
    reveal_strlit("data");
    assert("id"@.len() == 2);
    assert("method"@.len() == 6);
    assert("params"@.len() == 6);
    assert("result"@.len() == 6);
    assert("error"@.len() == 5);
    assert("code"@.len() == 4);
    assert("message"@.len() == 7);
    assert("data"@.len() == 4);
    assert("method"@[0] == 'm');
    assert("params"@[0] == 'p');
    assert("result"@[0] == 'r');
    assert("code"@[0] == 'c');
    assert("data"@[0] == 'd');
}

/// An error read back from its wire form is the error that was written.
pub proof fn lemma_error_round_trip(e: McpErrorValue)
    requires
        e.data != Some(JsonValue::Null),
        ErrorCode::spec_from_code(e.code.spec_code()) == e.code,
    ensures
        error_of(error_doc(e)) == Some(e),
{
    lemma_message_keys();
    reveal_with_fuel(lookup, 4);
    let fields = error_doc(e)->Object_0;
    assert(fields.len() == 3);
    assert(fields.drop_last().len() == 2);
    assert(fields.drop_last().drop_last().len() == 1);
    assert(fields.last().0 == "data"@);
    assert(fields.drop_last().last().0 == "message"@);
    assert(fields.drop_last().drop_last().last().0 == "code"@);
    let n = e.code.spec_code();
    assert(i64::MIN <= n <= i64::MAX);
    assert(JsonValue::of_integer(n as i64).integer() == Some(n as i64));
}

/// A message read back from its wire form is the message that was
/// written.
pub proof fn lemma_message_round_trip(m: McpMessageValue)
    requires
        wire_safe(m),
    ensures
        message_of(message_doc(m)) == Some(m),
{
    lemma_message_keys();
    reveal_with_fuel(lookup, 4);
    let doc = message_doc(m);
    let fields = doc->Object_0;
    match m {
        McpMessageValue::Request(r) => {
            match r.params {
                Some(p) => {
                    assert(fields.len() == 3);
                    assert(fields.drop_last().len() == 2);
                    assert(fields.drop_last().drop_last().len() == 1);
                    assert(fields.last().0 == "params"@);
                    assert(fields.drop_last().last().0 == "method"@);
                    assert(fields.drop_last().drop_last().last().0 == "id"@);
                },
                None => {
                    assert(fields.len() == 2);
                    assert(fields.drop_last().len() == 1);
                    assert(fields.drop_last().drop_last().len() == 0);
                    assert(fields.last().0 == "method"@);
                    assert(fields.drop_last().last().0 == "id"@);
                },
            }
        },
        McpMessageValue::Notification(n) => {
            match n.params {
                Some(p) => {
                    assert(fields.len() == 2);
                    assert(fields.drop_last().len() == 1);
                    assert(fields.drop_last().drop_last().len() == 0);
                    assert(fields.last().0 == "params"@);
                    assert(fields.drop_last().last().0 == "method"@);
                },
                None => {
                    assert(fields.len() == 1);
                    assert(fields.drop_last().len() == 0);
                    assert(fields.last().0 == "method"@);
                },
            }
        },
        McpMessageValue::Response(r) => {
            assert(fields.len() == 2);
            assert(fields.drop_last().len() == 1);
            assert(fields.drop_last().drop_last().len() == 0);
            assert(fields.drop_last().last().0 == "id"@);
            match r.error {
                Some(e) => {
                    assert(fields.last() == ("error"@, error_doc(e)));
                    lemma_error_round_trip(e);
                    assert(error_doc(e) != JsonValue::Null);
                },
                None => {
                    assert(fields.last().0 == "result"@);
                },
            }
        },
    }
}

/// A member of an object that is there and not `null`.
pub fn present_member<'a>(doc: &'a Json, key: &str) -> (r: Option<&'a Json>)
    ensures
        match r {
            Some(d) => present(doc@, key@) == Some(d@),
            None => present(doc@, key@).is_none(),
        },
{
    match doc.get(key) {
        Some(d) => if d.is_null() {
            None
        } else {
            Some(d)
        },
        None => None,
    }
}

/// A copy of an optional document.
fn cloned(doc: Option<&Json>) -> (r: Option<Json>)
    ensures
        match doc {
            Some(d) => optional_view(r) == Some(d@),
            None => r.is_none(),
        },
{
    match doc {
        Some(d) => Some(d.clone()),
        None => None,
    }
}

impl McpError {
    /// The wire form of the error.
    pub fn to_json(&self) -> (r: Json)
        ensures
            r@ == error_doc(self@),
    {
        let mut b = ObjectBuilder::new();
        b.put("code", Json::integer(self.code.code()));
        b.put("message", Json::text(self.message.as_str()));
        let data = match &self.data {
            Some(d) => d.clone(),
            None => Json::Null,
        };
        b.put("data", data);
        assert(b@ =~= error_doc(self@)->Object_0);
        b.build()
    }

    /// Reads an error from its wire form.
    pub fn from_json(doc: &Json) -> (r: Option<McpError>)
        ensures
            optional_error(r) == error_of(doc@),
    {
        let code = match doc.get("code") {
            Some(c) => c.as_i64(),
            None => None,
        };
        let message = match doc.get("message") {
            Some(m) => m.as_str(),
            None => None,
        };
        match (code, message) {
            (Some(n), Some(t)) => Some(
                McpError {
                    code: ErrorCode::from_code(n),
                    message: t.to_string(),
                    data: cloned(present_member(doc, "data")),
                },
            ),
            _ => None,
        }
    }
}

impl Request {
    /// The wire form of the request.
    pub fn to_json(&self) -> (r: Json)
        ensures
            r@ == request_doc(self@),
    {
        let mut b = ObjectBuilder::new();
        b.put("id", self.id.clone());
        b.put("method", Json::text(self.method.as_str()));
        match &self.params {
            Some(p) => {
                b.put("params", p.clone());
            },
            None => {},
        }
        assert(b@ =~= request_doc(self@)->Object_0);
        b.build()
    }
}

impl Response {
    /// The wire form of the response.
    pub fn to_json(&self) -> (r: Json)
        ensures
            r@ == response_doc(self@),
    {
        let mut b = ObjectBuilder::new();
        b.put("id", self.id.clone());
        match &self.error {
            Some(e) => {
                b.put("error", e.to_json());
            },
            None => {
                let result = match &self.result {
                    Some(d) => d.clone(),
                    None => Json::Null,
                };
                b.put("result", result);
            },
        }
        assert(b@ =~= response_doc(self@)->Object_0);
        b.build()
    }

    /// Reads a response from a document without `method`.
    pub fn from_json(doc: &Json) -> (r: Option<Response>)
        ensures
            match r {
                Some(x) => response_of(doc@) == Some(x@),
                None => response_of(doc@).is_none(),
            },
    {
        match doc.get("id") {
            Some(id) => match present_member(doc, "error") {
                Some(e) => match McpError::from_json(e) {
                    Some(err) => Some(Response { id: id.clone(), result: None, error: Some(err) }),
                    None => None,
                },
                None => match doc.get("result") {
                    Some(d) => Some(
                        Response { id: id.clone(), result: Some(d.clone()), error: None },
                    ),
                    None => None,
                },
            },
            None => None,
        }
    }
}

impl Notification {
    /// The wire form of the notification.
    pub fn to_json(&self) -> (r: Json)
        ensures
            r@ == notification_doc(self@),
    {
        let mut b = ObjectBuilder::new();
        b.put("method", Json::text(self.method.as_str()));
        match &self.params {
            Some(p) => {
                b.put("params", p.clone());
            },
            None => {},
        }
        assert(b@ =~= notification_doc(self@)->Object_0);
        b.build()
    }
}

impl McpMessage {
    /// The wire form of the message.
    pub fn to_json(&self) -> (r: Json)
        ensures
            r@ == message_doc(self@),
    {
        match self {
            McpMessage::Request(r) => r.to_json(),
            McpMessage::Response(r) => r.to_json(),
            McpMessage::Notification(n) => n.to_json(),
        }
    }

    /// Reads a message from a document.
    pub fn from_json(doc: &Json) -> (r: Option<McpMessage>)
        ensures
            optional_message(r) == message_of(doc@),
    {
        match doc.get("method") {
            Some(m) => match m.as_str() {
                Some(method) => {
                    let params = cloned(present_member(doc, "params"));
                    match present_member(doc, "id") {
                        Some(id) => Some(
                            McpMessage::Request(
                                Request { id: id.clone(), method: method.to_string(), params },
                            ),
                        ),
                        None => Some(
                            McpMessage::Notification(
                                Notification { method: method.to_string(), params },
                            ),
                        ),
                    }
                },
                None => None,
            },
            None => match Response::from_json(doc) {
                Some(r) => Some(McpMessage::Response(r)),
                None => None,
            },
        }
    }

    /// The message as compact JSON; there is always one.
    pub fn encode(&self) -> (r: Option<String>)
        ensures
            r is Some,
            optional_text(r) == json_text(message_doc(self@)),
    {
        self.to_json().to_text()
    }

    /// Reads the message that a JSON text holds; `None` where the text is
    /// not JSON or holds no message.
    pub fn decode(text: &str) -> (r: Option<McpMessage>)
        ensures
            optional_message(r) == line_message(text@),
    {
        match Json::parse(text) {
            Some(doc) => McpMessage::from_json(&doc),
            None => None,
        }
    }
}

} // verus!
