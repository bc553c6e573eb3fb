//! JSON documents as plain data, and the calls that turn them into text and
//! back.

use crate::text::same_text;
use serde_json::Value;
use vstd::prelude::*;

verus! {

/// A JSON number: a non-negative integer, a negative integer, or any other
/// number kept as its decimal text.
#[derive(Debug)]
pub enum Numeric {
    PosInt(u64),
    NegInt(i64),
    Float(String),
}

/// A JSON document.
#[derive(Debug)]
pub enum Json {
    Null,
    Bool(bool),
    Number(Numeric),
    Text(String),
    Array(Vec<Json>),
    Object(Vec<(String, Json)>),
}

/// The mathematical value of a [`Numeric`].
pub ghost enum NumericValue {
    PosInt(u64),
    NegInt(i64),
    Float(Seq<char>),
}

/// The mathematical value of a [`Json`] document.
pub ghost enum JsonValue {
    Null,
    Bool(bool),
    Number(NumericValue),
    Text(Seq<char>),
    Array(Seq<JsonValue>),
    Object(Seq<(Seq<char>, JsonValue)>),
}

impl View for Numeric {
    type V = NumericValue;

    open spec fn view(&self) -> NumericValue {
        match self {
            Numeric::PosInt(n) => NumericValue::PosInt(*n),
            Numeric::NegInt(n) => NumericValue::NegInt(*n),
            Numeric::Float(t) => NumericValue::Float(t@),
        }
    }
}

/// The value of a document.
pub open spec fn json_value(doc: Json) -> JsonValue
    decreases doc, 0nat,
{
    match doc {
        Json::Null => JsonValue::Null,
        Json::Bool(b) => JsonValue::Bool(b),
        Json::Number(n) => JsonValue::Number(n@),
        Json::Text(t) => JsonValue::Text(t@),
        Json::Array(items) => JsonValue::Array(elements_value(items, items.len() as nat)),
        Json::Object(fields) => JsonValue::Object(members_value(fields, fields.len() as nat)),
    }
}

/// The values of the first `n` elements of an array.
pub open spec fn elements_value(items: Vec<Json>, n: nat) -> Seq<JsonValue>
    decreases items, n,
{
    if n == 0 || n > items.len() {
        Seq::empty()
    } else {
        elements_value(items, (n - 1) as nat).push(json_value(items[n - 1]))
    }
}

/// The first `n` members of an object, each key with the value of its
/// document.
pub open spec fn members_value(fields: Vec<(String, Json)>, n: nat) -> Seq<(Seq<char>, JsonValue)>
    decreases fields, n,
{
    if n == 0 || n > fields.len() {
        Seq::empty()
    } else {
        members_value(fields, (n - 1) as nat).push((fields[n - 1].0@, json_value(fields[n - 1].1)))
    }
}

impl View for Json {
    type V = JsonValue;

    open spec fn view(&self) -> JsonValue {
        json_value(*self)
    }
}

impl Clone for Numeric {
    fn clone(&self) -> (r: Numeric)
        ensures
            r@ == self@,
    {
        match self {
            Numeric::PosInt(n) => Numeric::PosInt(*n),
            Numeric::NegInt(n) => Numeric::NegInt(*n),
            Numeric::Float(t) => Numeric::Float(t.clone()),
        }
    }
}

impl Clone for Json {
    fn clone(&self) -> (r: Json)
        ensures
            r@ == self@,
        decreases self,
    {
        match self {
            Json::Null => Json::Null,
            Json::Bool(b) => Json::Bool(*b),
            Json::Number(n) => Json::Number(n.clone()),
            Json::Text(t) => Json::Text(t.clone()),
            Json::Array(items) => {
                let mut out: Vec<Json> = Vec::new();
                let mut i: usize = 0;
                while i < items.len()
                    invariant
                        i <= items.len(),
                        out.len() == i,
                        *self == Json::Array(*items),
                        forall|k: int| 0 <= k < i ==> out[k]@ == items[k]@,
                    decreases items.len() - i,
                {
                    proof {
                        assert(decreases_to!(*self => self->Array_0));
                        assert(decreases_to!(self->Array_0 => self->Array_0[i as int]));
                    }
                    let item = items[i].clone();
                    out.push(item);
                    i += 1;
                }
                proof {
                    lemma_array_view(out);
                    lemma_array_view(*items);
                }
                assert(Json::Array(out)@->Array_0 =~= self@->Array_0);
                Json::Array(out)
            },
            Json::Object(fields) => {
                let mut out: Vec<(String, Json)> = Vec::new();
                let mut i: usize = 0;
                while i < fields.len()
                    invariant
                        i <= fields.len(),
                        out.len() == i,
                        *self == Json::Object(*fields),
                        forall|k: int|
                            0 <= k < i ==> out[k].0@ == fields[k].0@ && out[k].1@ == fields[k].1@,
                    decreases fields.len() - i,
                {
                    let key = fields[i].0.clone();
                    proof {
                        assert(decreases_to!(*self => self->Object_0));
                        assert(decreases_to!(self->Object_0 => self->Object_0[i as int]));
                        assert(decreases_to!(self->Object_0[i as int] => self->Object_0[i as int].1));
                    }
                    let value = fields[i].1.clone();
                    out.push((key, value));
                    i += 1;
                }
                proof {
                    lemma_object_view(out);
                    lemma_object_view(*fields);
                }
                assert(Json::Object(out)@->Object_0 =~= self@->Object_0);
                Json::Object(out)
            },
        }
    }
}

/// The first `n` element values are those of the first `n` elements.
pub proof fn lemma_elements_value(items: Vec<Json>, n: nat)
    requires
        n <= items.len(),
    ensures
        elements_value(items, n).len() == n,
        forall|k: int| 0 <= k < n ==> (#[trigger] elements_value(items, n)[k]) == items[k]@,
    decreases n,
{
    if n > 0 {
        lemma_elements_value(items, (n - 1) as nat);
    }
}

/// The first `n` member values are those of the first `n` members.
pub proof fn lemma_members_value(fields: Vec<(String, Json)>, n: nat)
    requires
        n <= fields.len(),
    ensures
        members_value(fields, n).len() == n,
        forall|k: int|
            0 <= k < n ==> (#[trigger] members_value(fields, n)[k]) == (
                fields[k].0@,
                fields[k].1@,
            ),
    decreases n,
{
    if n > 0 {
        lemma_members_value(fields, (n - 1) as nat);
    }
}

/// The values of a list of documents, in order.
pub open spec fn values_of(items: Seq<Json>) -> Seq<JsonValue> {
    Seq::new(items.len(), |k: int| items[k]@)
}

/// The members of a list of keyed documents, in order.
pub open spec fn members_of(fields: Seq<(String, Json)>) -> Seq<(Seq<char>, JsonValue)> {
    Seq::new(fields.len(), |k: int| (fields[k].0@, fields[k].1@))
}

/// The value of an array lists the values of its elements in order.
pub proof fn lemma_array_view(items: Vec<Json>)
    ensures
        Json::Array(items)@ is Array,
        Json::Array(items)@->Array_0.len() == items.len(),
        forall|k: int|
            0 <= k < items.len() ==> (#[trigger] Json::Array(items)@->Array_0[k]) == items[k]@,
        Json::Array(items)@ == JsonValue::Array(values_of(items@)),
{
    lemma_elements_value(items, items.len() as nat);
    assert(Json::Array(items)@->Array_0 =~= values_of(items@));
}

/// The value of an object lists its members, each key with the value of its
/// document, in order.
pub proof fn lemma_object_view(fields: Vec<(String, Json)>)
    ensures
        Json::Object(fields)@ is Object,
        Json::Object(fields)@->Object_0.len() == fields.len(),
        forall|k: int|
            0 <= k < fields.len() ==> (#[trigger] Json::Object(fields)@->Object_0[k]) == (
                fields[k].0@,
                fields[k].1@,
            ),
        Json::Object(fields)@ == JsonValue::Object(members_of(fields@)),
{
    lemma_members_value(fields, fields.len() as nat);
    assert(Json::Object(fields)@->Object_0 =~= members_of(fields@));
}

/// The value of an optional document.
pub open spec fn optional_view(doc: Option<Json>) -> Option<JsonValue> {
    match doc {
        Some(d) => Some(d@),
        None => None,
    }
}

/// The value of an optional text.
pub open spec fn optional_text(text: Option<String>) -> Option<Seq<char>> {
    match text {
        Some(t) => Some(t@),
        None => None,
    }
}

/// The member of an object stored under `key`: the last one, where a key
/// occurs more than once.
pub open spec fn lookup(fields: Seq<(Seq<char>, JsonValue)>, key: Seq<char>) -> Option<JsonValue>
    decreases fields.len(),
{
    if fields.len() == 0 {
        None
    } else if fields.last().0 == key {
        Some(fields.last().1)
    } else {
        lookup(fields.drop_last(), key)
    }
}

impl JsonValue {
    /// The member `key` of an object; `None` for a missing member and for
    /// any document that is not an object.
    pub open spec fn member(self, key: Seq<char>) -> Option<JsonValue> {
        match self {
            JsonValue::Object(fields) => lookup(fields, key),
            _ => None,
        }
    }

    /// The text of a string document.
    pub open spec fn text(self) -> Option<Seq<char>> {
        match self {
            JsonValue::Text(t) => Some(t),
            _ => None,
        }
    }

    /// The elements of an array document.
    pub open spec fn elements(self) -> Option<Seq<JsonValue>> {
        match self {
            JsonValue::Array(items) => Some(items),
            _ => None,
        }
    }

    /// The value of an integer document that fits 64 signed bits.
    pub open spec fn integer(self) -> Option<i64> {
        match self {
            JsonValue::Number(NumericValue::PosInt(n)) => if n <= i64::MAX {
                Some(n as i64)
            } else {
                None
            },
            JsonValue::Number(NumericValue::NegInt(n)) => Some(n),
            _ => None,
        }
    }

    /// The integer document that holds `n`.
    pub open spec fn of_integer(n: i64) -> JsonValue {
        if n >= 0 {
            JsonValue::Number(NumericValue::PosInt(n as u64))
        } else {
            JsonValue::Number(NumericValue::NegInt(n))
        }
    }

    /// The value of a non-negative integer document.
    pub open spec fn unsigned(self) -> Option<u64> {
        match self {
            JsonValue::Number(NumericValue::PosInt(n)) => Some(n),
            _ => None,
        }
    }
}

impl Json {
    /// The member `key` of an object.
    pub fn get(&self, key: &str) -> (r: Option<&Json>)
        ensures
            match r {
                Some(d) => self@.member(key@) == Some(d@),
                None => self@.member(key@).is_none(),
            },
    {
        match self {
            Json::Object(fields) => {
                let ghost all = self@->Object_0;
                proof {
                    lemma_object_view(*fields);
                }
                let mut i: usize = fields.len();
                assert(all.subrange(0, i as int) =~= all);
                while i > 0
                    invariant
                        i <= fields.len(),
                        *self == Json::Object(*fields),
                        all == self@->Object_0,
                        all.len() == fields.len(),
                        forall|k: int|
                            0 <= k < fields.len() ==> all[k] == (fields[k].0@, fields[k].1@),
                        lookup(all, key@) == lookup(all.subrange(0, i as int), key@),
                    decreases i,
                {
                    let ghost prefix = all.subrange(0, i as int);
                    assert(prefix.drop_last() =~= all.subrange(0, i - 1));
                    assert(prefix.last() == all[i - 1]);
                    i -= 1;
                    if same_text(fields[i].0.as_str(), key) {
                        return Some(&fields[i].1);
                    }
                }
                None
            },
            _ => None,
        }
    }

    /// The text of a string document.
    pub fn as_str(&self) -> (r: Option<&str>)
        ensures
            match r {
                Some(t) => self@.text() == Some(t@),
                None => self@.text().is_none(),
            },
    {
        match self {
            Json::Text(t) => Some(t.as_str()),
            _ => None,
        }
    }

    /// The elements of an array document.
    pub fn as_array(&self) -> (r: Option<&Vec<Json>>)
        ensures
            match r {
                Some(items) => *self == Json::Array(*items),
                None => self@.elements().is_none(),
            },
    {
        match self {
            Json::Array(items) => Some(items),
            _ => None,
        }
    }

    /// The value of a non-negative integer document.
    pub fn as_u64(&self) -> (r: Option<u64>)
        ensures
            r == self@.unsigned(),
    {
        match self {
            Json::Number(Numeric::PosInt(n)) => Some(*n),
            _ => None,
        }
    }

    /// The value of an integer document that fits 64 signed bits.
    pub fn as_i64(&self) -> (r: Option<i64>)
        ensures
            r == self@.integer(),
    {
        match self {
            Json::Number(Numeric::PosInt(n)) => if *n <= 9223372036854775807u64 {
                Some(*n as i64)
            } else {
                None
            },
            Json::Number(Numeric::NegInt(n)) => Some(*n),
            _ => None,
        }
    }

    /// The integer document that holds `n`.
    pub fn integer(n: i64) -> (r: Json)
        ensures
            r@ == JsonValue::of_integer(n),
    {
        if n >= 0 {
            Json::Number(Numeric::PosInt(n as u64))
        } else {
            Json::Number(Numeric::NegInt(n))
        }
    }

    /// Whether the document is `null`.
    pub fn is_null(&self) -> (r: bool)
        ensures
            r == (self@ == JsonValue::Null),
    {
        match self {
            Json::Null => true,
            _ => false,
        }
    }
}

#[verifier::external_type_specification]
#[verifier::external_body]
pub struct ExValue(serde_json::Value);

/// What `serde_json::from_str` makes of a text: the document it holds, or
/// `None` where the text is not one JSON document.
pub uninterp spec fn parsed_json(text: Seq<char>) -> Option<JsonValue>;

/// The compact text that `serde_json::to_string` writes for a
/// `serde_json::Value`, or `None` where it reports an error, which it does
/// for no value.
pub uninterp spec fn value_text(v: Value) -> Option<Seq<char>>;

/// The indented text that `serde_json::to_string_pretty` writes for a
/// `serde_json::Value`, or `None` where it reports an error, which it does
/// for no value.
pub uninterp spec fn value_text_pretty(v: Value) -> Option<Seq<char>>;

/// The compact text of a document: what `serde_json::to_string` writes for
/// the `serde_json::Value` into which the document is copied.
pub uninterp spec fn json_text(doc: JsonValue) -> Option<Seq<char>>;

/// The indented text of a document: what `serde_json::to_string_pretty`
/// writes for the `serde_json::Value` into which the document is copied.
pub uninterp spec fn json_text_pretty(doc: JsonValue) -> Option<Seq<char>>;

/// What a `serde_json::Value` holds, as a document: each variant as the
/// variant of the same name, the members of an object in the order in
/// which its map yields them.
pub uninterp spec fn value_contents(v: Value) -> JsonValue;

/// Copies a `serde_json::Value` into a document, variant by variant. A
/// number that fits `u64` or `i64` is kept as that integer, any other as
/// the text that it displays.
#[verifier::external_body]
fn lift(v: &Value) -> (doc: Json)
    ensures
        doc@ == value_contents(*v),
{
    match v {
        Value::Null => Json::Null,
        Value::Bool(b) => Json::Bool(*b),
        Value::Number(n) => Json::Number(match (n.as_u64(), n.as_i64()) {
            (Some(u), _) => Numeric::PosInt(u),
            (_, Some(i)) => Numeric::NegInt(i),
            _ => Numeric::Float(n.to_string()),
        }),
        Value::String(t) => Json::Text(t.clone()),
        Value::Array(a) => Json::Array(a.iter().map(lift).collect()),
        Value::Object(m) => Json::Object(m.iter().map(|(k, x)| (k.clone(), lift(x))).collect()),
    }
}

/// Copies a document into a `serde_json::Value`, variant by variant. The
/// text of a `Float` is read back by `serde_json::from_str`; one that is no
/// number becomes `null`, as `serde_json` does with a number that it cannot
/// hold. The value depends on nothing but the document, and the texts
/// that `serde_json` writes for it, as it does for every value, are the
/// texts of the document.
#[verifier::external_body]
fn lower(doc: &Json) -> (v: Value)
    ensures
        value_text(v) == json_text(doc@),
        value_text_pretty(v) == json_text_pretty(doc@),
        value_text(v) is Some,
        value_text_pretty(v) is Some,
{
    match doc {
        Json::Null => Value::Null,
        Json::Bool(b) => Value::Bool(*b),
        Json::Number(Numeric::PosInt(u)) => Value::from(*u),
        Json::Number(Numeric::NegInt(i)) => Value::from(*i),
        Json::Number(Numeric::Float(t)) => serde_json::from_str(t).map_or(Value::Null, Value::Number),
        Json::Text(t) => Value::String(t.clone()),
        Json::Array(a) => Value::Array(a.iter().map(lower).collect()),
        Json::Object(f) => Value::Object(f.iter().map(|(k, x)| (k.clone(), lower(x))).collect()),
    }
}

/// `serde_json::from_str` at `serde_json::Value`: the document that the text
/// holds, `None` where `serde_json` rejects the text.
#[verifier::external_body]
fn decode(text: &str) -> (r: Option<Json>)
    ensures
        optional_view(r) == parsed_json(text@),
{
    match serde_json::from_str::<Value>(text) {
        Ok(v) => Some(lift(&v)),
        Err(_) => None,
    }
}

/// `serde_json::to_string` at `serde_json::Value`: the value on one line,
/// without spaces between tokens. Writing a value cannot fail: its keys are
/// strings and its numbers are finite.
#[verifier::external_body]
fn serialize(v: &Value) -> (r: Option<String>)
    ensures
        r is Some,
        optional_text(r) == value_text(*v),
{
    serde_json::to_string(v).ok()
}

/// `serde_json::to_string_pretty` at `serde_json::Value`: the value over
/// several lines, indented by two spaces. Writing a value cannot fail.
#[verifier::external_body]
fn serialize_pretty(v: &Value) -> (r: Option<String>)
    ensures
        r is Some,
        optional_text(r) == value_text_pretty(*v),
{
    serde_json::to_string_pretty(v).ok()
}

/// An object under construction: members are appended one at a time.
pub struct ObjectBuilder {
    fields: Vec<(String, Json)>,
}

impl View for ObjectBuilder {
    type V = Seq<(Seq<char>, JsonValue)>;

    closed spec fn view(&self) -> Seq<(Seq<char>, JsonValue)> {
        members_of(self.fields@)
    }
}

impl ObjectBuilder {
    /// An object without members.
    pub fn new() -> (r: ObjectBuilder)
        ensures
            r@ == Seq::<(Seq<char>, JsonValue)>::empty(),
    {
        let r = ObjectBuilder { fields: Vec::new() };
        assert(r@ =~= Seq::<(Seq<char>, JsonValue)>::empty());
        r
    }

    /// Appends the member `key` with the document `value`.
    pub fn put(&mut self, key: &str, value: Json)
        ensures
            final(self)@ == old(self)@.push((key@, value@)),
    {
        self.fields.push((key.to_string(), value));
        assert(final(self)@ =~= old(self)@.push((key@, value@)));
    }

    /// The finished object.
    pub fn build(self) -> (r: Json)
        ensures
            r@ == JsonValue::Object(self@),
    {
        proof {
            lemma_object_view(self.fields);
        }
        Json::Object(self.fields)
    }
}

impl Json {
    /// A string document.
    pub fn text(value: &str) -> (r: Json)
        ensures
            r@ == JsonValue::Text(value@),
    {
        Json::Text(value.to_string())
    }

    /// A non-negative integer document.
    pub fn unsigned(value: u64) -> (r: Json)
        ensures
            r@ == JsonValue::Number(NumericValue::PosInt(value)),
    {
        Json::Number(Numeric::PosInt(value))
    }

    /// An array of the given documents.
    pub fn array(items: Vec<Json>) -> (r: Json)
        ensures
            r@ == JsonValue::Array(values_of(items@)),
    {
        proof {
            lemma_array_view(items);
        }
        Json::Array(items)
    }

    /// The document that a `serde_json::Value` holds.
    pub fn from_value(value: &Value) -> (r: Json)
        ensures
            r@ == value_contents(*value),
    {
        lift(value)
    }

    /// The document as a `serde_json::Value`. Of members with one key the
    /// last stays, and a `Float` whose text is no number becomes `null`.
    /// What `serde_json` writes for the value is the text of the document,
    /// compact and indented.
    pub fn to_value(&self) -> (v: Value)
        ensures
            value_text(v) == json_text(self@),
            value_text_pretty(v) == json_text_pretty(self@),
            value_text(v) is Some,
            value_text_pretty(v) is Some,
    {
        lower(self)
    }

    /// Reads one JSON document from a text.
    pub fn parse(text: &str) -> (r: Option<Json>)
        ensures
            optional_view(r) == parsed_json(text@),
    {
        decode(text)
    }

    /// The document as one line of JSON; there is always one.
    pub fn to_text(&self) -> (r: Option<String>)
        ensures
            r is Some,
            optional_text(r) == json_text(self@),
    {
        serialize(&lower(self))
    }

    /// The document as indented JSON; there is always one.
    pub fn to_pretty_text(&self) -> (r: Option<String>)
        ensures
            r is Some,
            optional_text(r) == json_text_pretty(self@),
    {
        serialize_pretty(&lower(self))
    }
}

} // verus!
