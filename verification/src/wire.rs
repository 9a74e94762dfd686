use crate::json::{jv_model, JsonSpec, JsonValue};
use vstd::prelude::*;

verus! {

/// serde_json's dynamic JSON value, held opaquely while converting.
#[verifier::external_type_specification]
#[verifier::external_body]
pub struct ExSerdeValue(serde_json::Value);

/// The tree a given JSON text parses to, if the text is valid JSON.
pub uninterp spec fn parse_json(text: Seq<char>) -> Option<JsonSpec>;

/// The JSON text a given tree serializes to.
pub uninterp spec fn dump_json(j: JsonSpec) -> Seq<char>;

/// Relies on serde_json::from_str to parse JSON text into a dynamic
/// value, converted case for case into the library's tree. Numbers that
/// do not fit `i64` (floating point included) come back as null; no
/// field of this schema carries one.
#[verifier::external_body]
pub fn json_from_text(text: &str) -> (r: Option<JsonValue>)
    ensures
        match r {
            Some(v) => parse_json(text@) == Some(jv_model(v)),
            None => parse_json(text@) is None,
        },
{
    serde_json::from_str::<serde_json::Value>(text).ok().map(value_to_tree)
}

/// Relies on serde_json::Value, whose cases it moves one for one into
/// the library's tree.
#[verifier::external_body]
fn value_to_tree(v: serde_json::Value) -> JsonValue {
    match v {
        serde_json::Value::Null => JsonValue::Null,
        serde_json::Value::Bool(b) => JsonValue::Bool(b),
        serde_json::Value::Number(n) => match n.as_i64() {
            Some(i) => JsonValue::Int(i),
            None => JsonValue::Null,
        },
        serde_json::Value::String(s) => JsonValue::Str(s),
        serde_json::Value::Array(a) => JsonValue::Arr(a.into_iter().map(value_to_tree).collect()),
        serde_json::Value::Object(m) => JsonValue::Obj(
            m.into_iter().map(|(k, w)| (k, value_to_tree(w))).collect(),
        ),
    }
}

/// Relies on serde_json::to_string, which prints any dynamic value and
/// orders every object by key: the text depends only on the tree's
/// mathematical image.
#[verifier::external_body]
pub fn json_to_text(v: &JsonValue) -> (r: String)
    ensures
        r@ == dump_json(jv_model(*v)),
{
    serde_json::to_string(&tree_to_value(v)).unwrap_or_default()
}

/// Relies on serde_json::Value, rebuilt case for case from the
/// library's tree.
#[verifier::external_body]
fn tree_to_value(v: &JsonValue) -> serde_json::Value {
    match v {
        JsonValue::Null => serde_json::Value::Null,
        JsonValue::Bool(b) => serde_json::Value::Bool(*b),
        JsonValue::Int(i) => serde_json::Value::Number(serde_json::Number::from(*i)),
        JsonValue::Str(s) => serde_json::Value::String(s.clone()),
        JsonValue::Arr(items) => serde_json::Value::Array(
            items.iter().map(tree_to_value).collect(),
        ),
        JsonValue::Obj(pairs) => serde_json::Value::Object(
            pairs.iter().map(|(k, w)| (k.clone(), tree_to_value(w))).collect(),
        ),
    }
}

} // verus!
