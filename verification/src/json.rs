//! The JSON documents that the provider answers with.
//!
//! Parsing is left to `serde_json`; what it returns is copied into
//! [`JsonValue`], a plain tree that the rest of the crate reasons about.

use crate::text::same_text;
use vstd::prelude::*;

verus! {

/// `serde_json::Value`, as an opaque value: what the parser hands back
/// before it is copied into a [`JsonValue`].
#[verifier::external_type_specification]
#[verifier::external_body]
pub struct ExJsonValue(serde_json::Value);

/// `serde_json::Error`, as an opaque value: the parser's report of where a
/// text stops being JSON.
#[verifier::external_type_specification]
#[verifier::external_body]
pub struct ExJsonError(serde_json::Error);

/// A JSON value.
///
/// An object keeps its members as a list of pairs. Where a key occurs more
/// than once the last occurrence counts, see [`member_of`].
#[derive(Debug, PartialEq, Eq)]
pub enum JsonValue {
    Null,
    Bool(bool),
    /// A number, kept as the decimal text that stands for it.
    Number(String),
    Text(String),
    Array(Vec<JsonValue>),
    Object(Vec<(String, JsonValue)>),
}

/// What `serde_json::from_str` makes of a text: the document it parses to,
/// or `None` where it reports an error.
pub uninterp spec fn json_document(text: Seq<char>) -> Option<JsonValue>;

/// The tree that a `serde_json::Value` holds.
pub uninterp spec fn json_tree(value: serde_json::Value) -> JsonValue;

/// The member of an object that a key selects: the last entry under that key.
pub open spec fn member_of(entries: Seq<(String, JsonValue)>, key: Seq<char>) -> Option<JsonValue>
    decreases entries.len(),
{
    if entries.len() == 0 {
        None
    } else if entries.last().0@ == key {
        Some(entries.last().1)
    } else {
        member_of(entries.drop_last(), key)
    }
}

/// Parses a text with `serde_json`.
///
/// Trusted: calls `serde_json::from_str` at type `serde_json::Value`. The
/// contract only names the outcome: the parser is a function of the text, so
/// the same text always gives the same value or always fails.
#[verifier::external_body]
fn parse_value(text: &str) -> (r: Result<serde_json::Value, serde_json::Error>)
    ensures
        match r {
            Ok(value) => json_document(text@) == Some(json_tree(value)),
            Err(_) => json_document(text@) is None,
        },
{
    serde_json::from_str::<serde_json::Value>(text)
}

/// Copies a `serde_json::Value` into a [`JsonValue`], variant by variant.
///
/// Trusted: matches on the variants of `serde_json::Value` and moves their
/// fields over; a number is rendered with its `Display` impl. The contract
/// names the result as the tree of the value.
#[verifier::external_body]
fn tree_of(value: serde_json::Value) -> (r: JsonValue)
    ensures
        r == json_tree(value),
{
    match value {
        serde_json::Value::Null => JsonValue::Null,
        serde_json::Value::Bool(b) => JsonValue::Bool(b),
        serde_json::Value::Number(n) => JsonValue::Number(n.to_string()),
        serde_json::Value::String(s) => JsonValue::Text(s),
        serde_json::Value::Array(a) => JsonValue::Array(a.into_iter().map(tree_of).collect()),
        serde_json::Value::Object(m) => JsonValue::Object(
            m.into_iter().map(|(k, v)| (k, tree_of(v))).collect(),
        ),
    }
}

/// Looks a key up among the members of an object.
pub fn find_member<'a>(
    entries: &'a Vec<(String, JsonValue)>,
    key: &str,
) -> (r: Option<&'a JsonValue>)
    ensures
        match r {
            Some(value) => member_of(entries@, key@) == Some(*value),
            None => member_of(entries@, key@) is None,
        },
{
    let mut i: usize = entries.len();
    assert(entries@.subrange(0, i as int) =~= entries@);
    while i > 0
        invariant
            i <= entries.len(),
            member_of(entries@, key@) == member_of(entries@.subrange(0, i as int), key@),
        decreases i,
    {
        i -= 1;
        assert(entries@.subrange(0, i + 1).drop_last() =~= entries@.subrange(0, i as int));
        if same_text(entries[i].0.as_str(), key) {
            return Some(&entries[i].1);
        }
    }
    None
}

impl JsonValue {
    /// Parses a JSON text.
    pub fn parse(text: &str) -> (r: Result<JsonValue, serde_json::Error>)
        ensures
            match r {
                Ok(doc) => json_document(text@) == Some(doc),
                Err(_) => json_document(text@) is None,
            },
    {
        match parse_value(text) {
            Ok(value) => Ok(tree_of(value)),
            Err(e) => Err(e),
        }
    }
}

} // verus!
