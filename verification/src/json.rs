//! A JSON tree and its parser boundary.
//!
//! The library decodes API responses from this tree. Numbers are carried as
//! their decimal tokens, so the tree holds plain values only and a decoded
//! value re-encodes exactly. Parsing text into the tree is delegated to
//! serde_json behind the two trusted functions at the bottom of this file;
//! everything that reads the tree is verified.

use vstd::prelude::*;
use crate::util::str_eq;

verus! {

/// One JSON value.
#[derive(Debug)]
pub enum JsonValue {
    Null,
    Bool(bool),
    /// A number, as its decimal token on the wire.
    Num(String),
    Str(String),
    Arr(Vec<JsonValue>),
    Obj(Vec<JsonField>),
}

/// One field of a JSON object.
#[derive(Debug)]
pub struct JsonField {
    pub name: String,
    pub value: JsonValue,
}

/// First value bound to `key`, scanning the fields in order.
pub open spec fn lookup(fields: Seq<JsonField>, key: Seq<char>) -> Option<JsonValue>
    decreases fields.len(),
{
    if fields.len() == 0 {
        Option::None
    } else if fields[0].name@ == key {
        Option::Some(fields[0].value)
    } else {
        lookup(fields.drop_first(), key)
    }
}

/// A key first matched at position `i` is what lookup finds.
pub proof fn lemma_lookup_at(fields: Seq<JsonField>, key: Seq<char>, i: int)
    requires
        0 <= i < fields.len(),
        forall|j: int| 0 <= j < i ==> #[trigger] fields[j].name@ != key,
        fields[i].name@ == key,
    ensures
        lookup(fields, key) == Option::Some(fields[i].value),
    decreases i,
{
    if i > 0 {
        assert(fields.drop_first().len() == fields.len() - 1);
        assert(forall|j: int|
            0 <= j < i - 1 ==> #[trigger] fields.drop_first()[j].name@ == fields[j + 1].name@);
        lemma_lookup_at(fields.drop_first(), key, i - 1);
    }
}

/// A key matched at no position is not found.
pub proof fn lemma_lookup_absent(fields: Seq<JsonField>, key: Seq<char>)
    requires
        forall|j: int| 0 <= j < fields.len() ==> #[trigger] fields[j].name@ != key,
    ensures
        lookup(fields, key) is None,
    decreases fields.len(),
{
    if fields.len() > 0 {
        assert(forall|j: int|
            0 <= j < fields.len() - 1 ==> #[trigger] fields.drop_first()[j].name@ == fields[j
                + 1].name@);
        lemma_lookup_absent(fields.drop_first(), key);
    }
}

/// First value bound to `key` in an object's fields.
pub fn obj_get<'a>(fields: &'a Vec<JsonField>, key: &str) -> (r: Option<&'a JsonValue>)
    ensures
        r matches Some(v) ==> lookup(fields@, key@) == Option::Some(*v),
        r is None ==> lookup(fields@, key@) is None,
{
    let n = fields.len();
    let mut i: usize = 0;
    while i < n
        invariant
            i <= n == fields@.len(),
            forall|j: int| 0 <= j < i ==> #[trigger] fields@[j].name@ != key@,
        decreases n - i,
    {
        if str_eq(fields[i].name.as_str(), key) {
            proof {
                lemma_lookup_at(fields@, key@, i as int);
            }
            return Some(&fields[i].value);
        }
        i = i + 1;
    }
    proof {
        lemma_lookup_absent(fields@, key@);
    }
    None
}

/// What serde_json's parser yields on the given text: the parsed value, or
/// nothing when the text is not valid JSON. A function of the text alone.
pub uninterp spec fn parsed_value(text: Seq<char>) -> Option<serde_json::Value>;

/// The library's tree for a parsed serde_json value: the same tree with each
/// number replaced by its canonical decimal token. A function of the value
/// alone.
pub uninterp spec fn tree_of(v: serde_json::Value) -> JsonValue;

/// The library's tree for the given JSON text, or nothing when the text is
/// not valid JSON.
pub open spec fn parse_model(text: Seq<char>) -> Option<JsonValue> {
    match parsed_value(text) {
        Option::Some(v) => Option::Some(tree_of(v)),
        Option::None => Option::None,
    }
}

#[verifier::external_type_specification]
#[verifier::external_body]
pub struct ExValue(serde_json::Value);

/// Relies on serde_json::from_str: parses JSON text into a tree, refusing
/// malformed text; deeply nested input is refused, not overflowed. The
/// result is a function of the text alone.
#[verifier::external_body]
fn json_from_str(text: &str) -> (r: Option<serde_json::Value>)
    ensures
        r == parsed_value(text@),
{
    serde_json::from_str::<serde_json::Value>(text).ok()
}

/// Relies on serde_json::Value's six variants and Number's display: each node
/// is moved one-for-one into the library's tree, numbers as their canonical
/// decimal token (itoa digits for integers, the shortest round-tripping form
/// for floats). The result is a function of the value alone.
#[verifier::external_body]
fn json_tree(v: serde_json::Value) -> (r: JsonValue)
    ensures
        r == tree_of(v),
{
    match v {
        serde_json::Value::Null => JsonValue::Null,
        serde_json::Value::Bool(b) => JsonValue::Bool(b),
        serde_json::Value::Number(n) => JsonValue::Num(n.to_string()),
        serde_json::Value::String(s) => JsonValue::Str(s),
        serde_json::Value::Array(a) => JsonValue::Arr(a.into_iter().map(json_tree).collect()),
        serde_json::Value::Object(m) => JsonValue::Obj(
            m.into_iter().map(|e| JsonField { name: e.0, value: json_tree(e.1) }).collect(),
        ),
    }
}

/// Parses JSON text into the library's tree; `None` on malformed text.
pub fn parse_json(text: &str) -> (r: Option<JsonValue>)
    ensures
        r == parse_model(text@),
{
    match json_from_str(text) {
        Some(v) => Some(json_tree(v)),
        None => None,
    }
}

} // verus!
