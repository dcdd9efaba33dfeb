//! The trusted boundary between wire text and the library's JSON tree.
//!
//! Reading and writing JSON text is the work of `serde_json`; the library
//! states what that collaborator does and verifies everything on the tree
//! side of the boundary.

use vstd::prelude::*;
use crate::json::{jdepth, jview, jwf, Json, JsonV};

verus! {

/// `serde_json`'s generic JSON value, carried opaquely through the trusted
/// boundary.
#[verifier::external_type_specification]
#[verifier::external_body]
pub struct ExValue(serde_json::Value);

/// The JSON tree that given wire text stands for — the result of
/// `serde_json`'s reader, which depends on the text alone — or `None` where
/// the text is not well-formed JSON (or nests beyond 127 levels).
pub uninterp spec fn spec_parse_json(s: Seq<char>) -> Option<JsonV>;

/// The wire text that `serde_json`'s writer produces for a tree; it depends
/// on the tree alone.
pub uninterp spec fn spec_write_json(v: JsonV) -> Seq<char>;

/// That a number lexeme is written back exactly as it stands by
/// `serde_json`'s number printer after a read; it depends on the lexeme
/// alone.  Every lexeme the reader hands out has this property, since the
/// reader's numbers print in one canonical notation.
pub uninterp spec fn canonical_num(s: Seq<char>) -> bool;

/// Decides whether a number lexeme is in the wire reader's canonical
/// notation.
///
/// Relies on `serde_json::Number`'s `FromStr` and `Display`: it reads the
/// text and writes it back; acceptance also means the text conforms to the
/// wire number grammar, which is all that `FromStr` accepts.
#[verifier::external_body]
pub(crate) fn num_canonical(s: &str) -> (r: bool)
    ensures
        r == canonical_num(s@),
        r ==> crate::num::is_num_lexeme(s@),
{
    match s.parse::<serde_json::Number>() {
        Ok(n) => n.to_string() == s,
        Err(_) => false,
    }
}

/// Converts `serde_json`'s tree into the library's, one node for one node.
///
/// Relies on `serde_json::Map` iterating its entries in ascending key order
/// with unique keys (it is backed by a `BTreeMap`), and on
/// `serde_json::Number::to_string` writing a number lexeme of the wire
/// grammar.
#[verifier::external_body]
fn value_to_json(v: &serde_json::Value) -> Json {
    match v {
        serde_json::Value::Null => Json::Null,
        serde_json::Value::Bool(b) => Json::Bool(*b),
        serde_json::Value::Number(n) => Json::Num(n.to_string()),
        serde_json::Value::String(s) => Json::Str(s.clone()),
        serde_json::Value::Array(a) => Json::Arr(a.iter().map(value_to_json).collect()),
        serde_json::Value::Object(m) => Json::Obj(
            m.iter().map(|(k, x)| (k.clone(), value_to_json(x))).collect(),
        ),
    }
}

/// Converts the library's tree into `serde_json`'s, one node for one node.
///
/// Relies on `serde_json::Number`'s `FromStr` accepting every number lexeme
/// of the wire grammar; on a lexeme outside the grammar the conversion would
/// stop, so the callers only pass well-formed trees.
#[verifier::external_body]
fn json_to_value(j: &Json) -> serde_json::Value
    requires
        jwf(jview(*j)),
{
    match j {
        Json::Null => serde_json::Value::Null,
        Json::Bool(b) => serde_json::Value::Bool(*b),
        Json::Num(s) => serde_json::Value::Number(s.parse().expect("number lexeme")),
        Json::Str(s) => serde_json::Value::String(s.clone()),
        Json::Arr(items) => serde_json::Value::Array(items.iter().map(json_to_value).collect()),
        Json::Obj(entries) => serde_json::Value::Object(
            entries.iter().map(|(k, x)| (k.clone(), json_to_value(x))).collect(),
        ),
    }
}

/// Reads wire text into a JSON tree.
///
/// Relies on `serde_json::from_str::<serde_json::Value>`: the result is a
/// function of the text alone; a tree it hands out is well-formed — its maps
/// hold unique keys in ascending order, its number lexemes conform to the
/// wire grammar and are in the printer's canonical notation — and nests
/// within the reader's own 127-level bound.
#[verifier::external_body]
pub fn parse_json(s: &str) -> (r: Option<Json>)
    ensures
        r.deep_view() == spec_parse_json(s@),
        r matches Some(j) ==> jwf(jview(j)) && jdepth(jview(j)) <= 127,
{
    match serde_json::from_str::<serde_json::Value>(s) {
        Ok(v) => Some(value_to_json(&v)),
        Err(_) => None,
    }
}

/// Writes a well-formed JSON tree as wire text.
///
/// Relies on `serde_json::to_string`: the text is a function of the tree
/// alone, and reading it back yields the same tree — the keys of a
/// well-formed tree already stand in map order, its number lexemes are
/// already in the notation the writer uses, and the nesting stays within the
/// reader's 127-level bound.
#[verifier::external_body]
pub fn write_json(j: &Json) -> (r: String)
    requires
        jwf(jview(*j)),
        jdepth(jview(*j)) <= 127,
    ensures
        r@ == spec_write_json(jview(*j)),
        spec_parse_json(r@) == Some(jview(*j)),
{
    serde_json::to_string(&json_to_value(j)).expect("a JSON value serializes")
}

} // verus!
