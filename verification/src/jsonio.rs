//! The trusted boundary to the serialization library: parsing the persisted
//! text of a record into the document tree of [`crate::doc::Doc`]. Everything
//! past this boundary is verified code over that tree.

use vstd::prelude::*;

use crate::doc::{Doc, Num};

verus! {

#[verifier::external_type_specification]
#[verifier::external_body]
pub struct ExValue(serde_json::Value);

/// The document tree that the serialized text parses into, or nothing when
/// the text is not well-formed: a fixed function of the text alone.
pub uninterp spec fn parsed_doc(text: Seq<char>) -> Option<Doc>;

/// Relies on `serde_json::Value`'s structure: one arm per document shape,
/// moving each value into the corresponding [`Doc`] shape. An integer that
/// `as_i64` accepts becomes an exact integer; any other number keeps its
/// rendered text verbatim.
#[verifier::external_body]
fn doc_of_value(v: &serde_json::Value) -> Doc {
    match v {
        serde_json::Value::Null => Doc::Null,
        serde_json::Value::Bool(b) => Doc::Bool(*b),
        serde_json::Value::Number(n) => match n.as_i64() {
            Some(i) => Doc::Num(Num::Int(i)),
            None => Doc::Num(Num::Dec(n.to_string())),
        },
        serde_json::Value::String(s) => Doc::Str(s.clone()),
        serde_json::Value::Array(items) => Doc::Arr(items.iter().map(doc_of_value).collect()),
        serde_json::Value::Object(entries) => Doc::Obj(
            entries.iter().map(|(k, x)| (k.clone(), doc_of_value(x))).collect(),
        ),
    }
}

/// Relies on `serde_json::from_str`: the text parses into a value exactly when
/// it is well-formed, and the value is a function of the text alone (the
/// parser is deterministic, and its maps keep a fixed entry order).
#[verifier::external_body]
pub fn parse_document(text: &str) -> (r: Option<Doc>)
    ensures
        r == parsed_doc(text@),
{
    match serde_json::from_str::<serde_json::Value>(text) {
        Ok(v) => Some(doc_of_value(&v)),
        Err(_) => None,
    }
}

} // verus!
