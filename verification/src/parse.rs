//! Parsing wire text into a [`JsonValue`] tree.
//!
//! The JSON grammar itself is read by serde_json; the library trusts it for
//! exactly that. What a given line parses to is named by the uninterpreted
//! function [`spec_parse_json`]: the library's own contracts, and everything
//! proved from them, speak of a line only through that name. The shape
//! checks, envelope rules and dispatch that follow the parse are all
//! verified code over [`JsonValue`].

use vstd::prelude::*;

use crate::json::{JsonValue, SpecJson};

verus! {

/// Declares serde_json::Value so that the trusted items below may speak
/// of it; the library never looks inside such a value.
#[verifier::external_type_specification]
#[verifier::external_body]
pub struct ExSerdeValue(serde_json::Value);

/// The model of what a line of text parses to: `None` when the reader
/// refuses the text (it is not one JSON document, or nests too deeply for
/// the reader), otherwise the parsed value. The result depends on the text
/// alone.
pub uninterp spec fn spec_parse_json(s: Seq<char>) -> Option<SpecJson>;

/// The model of what a parsed serde_json tree holds.
pub uninterp spec fn tree_model(t: serde_json::Value) -> SpecJson;

/// Relies on serde_json::from_str for the JSON grammar: the result is `Some`
/// exactly when the text is one well-formed JSON document, and the tree then
/// holds that document's value.
#[verifier::external_body]
fn parse_tree(s: &str) -> (r: Option<serde_json::Value>)
    ensures
        (r is Some) == (spec_parse_json(s@) is Some),
        r matches Some(t) ==> Some(tree_model(t)) == spec_parse_json(s@),
{
    serde_json::from_str::<serde_json::Value>(s).ok()
}

/// Relies on serde_json::Value's variants, read one arm each: every node of
/// the tree is moved into the library's own [`JsonValue`]. A number that
/// `as_i64` accepts becomes [`JsonValue::Num`]; any other number keeps its
/// decimal text, as `Number::to_string` renders it.
#[verifier::external_body]
fn tree_to_json(t: &serde_json::Value) -> (r: JsonValue)
    ensures
        r@ == tree_model(*t),
{
    match t {
        serde_json::Value::Null => JsonValue::Null,
        serde_json::Value::Bool(b) => JsonValue::Bool(*b),
        serde_json::Value::Number(n) => match n.as_i64() {
            Some(i) => JsonValue::Num(i),
            None => JsonValue::NumText(n.to_string()),
        },
        serde_json::Value::String(s) => JsonValue::Str(s.clone()),
        serde_json::Value::Array(a) => JsonValue::Arr(a.iter().map(tree_to_json).collect()),
        serde_json::Value::Object(m) => JsonValue::Obj(
            m.iter().map(|(k, v)| (k.clone(), tree_to_json(v))).collect(),
        ),
    }
}

/// Parse one line of wire text into a JSON value, or `None` when the text is
/// not a JSON document.
pub fn parse_json(s: &str) -> (r: Option<JsonValue>)
    ensures
        (r is Some) == (spec_parse_json(s@) is Some),
        r matches Some(v) ==> Some(v@) == spec_parse_json(s@),
{
    match parse_tree(s) {
        Some(t) => Some(tree_to_json(&t)),
        None => None,
    }
}

} // verus!
