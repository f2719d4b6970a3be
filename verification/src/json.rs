//! JSON documents, as `serde_json` reads them.
//!
//! A parsed document is a `serde_json::Value`. The verifier cannot look inside
//! one, so this module names what a value holds ([`json_tree`]) and states, for
//! each accessor of `serde_json` that the library calls, what it returns in
//! terms of that name. These statements are taken on trust from the source of
//! `serde_json`; everything built on them is proved.

use serde_json::Value;
use vstd::prelude::*;

verus! {

/// `serde_json::Value`: any JSON value. Opaque to the verifier.
#[verifier::external_type_specification]
#[verifier::external_body]
pub struct ExValue(serde_json::Value);

/// `serde_json::Error`: why a text is not a JSON document. Opaque to the verifier.
#[verifier::external_type_specification]
#[verifier::external_body]
pub struct ExError(serde_json::Error);

/// What a JSON value holds, as far as this library reads it. Numbers are not
/// read, so the model does not tell them apart.
pub enum JsonTree {
    Null,
    Bool(bool),
    Number,
    Text(Seq<char>),
    List(Seq<JsonTree>),
    Object(Map<Seq<char>, JsonTree>),
}

/// The contents of a `serde_json::Value`.
pub uninterp spec fn json_tree(value: Value) -> JsonTree;

/// The document that `serde_json::from_reader` reads from `bytes`, or `None`
/// where it reports an error.
pub uninterp spec fn parsed_document(bytes: Seq<u8>) -> Option<JsonTree>;

/// The member `key` of `tree`: `Null` where `tree` is no object or has no such
/// member.
pub open spec fn member_of(tree: JsonTree, key: Seq<char>) -> JsonTree {
    match tree {
        JsonTree::Object(members) => if members.dom().contains(key) {
            members[key]
        } else {
            JsonTree::Null
        },
        _ => JsonTree::Null,
    }
}

/// The trees of a sequence of values.
pub open spec fn trees_of(values: Seq<Value>) -> Seq<JsonTree> {
    values.map_values(|value: Value| json_tree(value))
}

/// Calls `serde_json::from_reader` on a byte slice. Trusted: the outcome is a
/// function of the bytes alone, named [`parsed_document`]; on success the
/// value returned holds that document.
#[verifier::external_body]
pub(crate) fn parse_document(body: &[u8]) -> (parsed: Result<Value, serde_json::Error>)
    ensures
        match parsed {
            Ok(value) => parsed_document(body@) == Some(json_tree(value)),
            Err(_) => parsed_document(body@) is None,
        },
{
    serde_json::from_reader(body)
}

/// Indexes a value by a key (`serde_json::Value`'s `Index` with a `&str`).
/// Trusted: the result is the member of that name where the value is an
/// object that has one, and a null value otherwise; the call never panics.
#[verifier::external_body]
pub(crate) fn member<'a>(value: &'a Value, key: &str) -> (found: &'a Value)
    ensures
        json_tree(*found) == member_of(json_tree(*value), key@),
{
    &value[key]
}

/// `serde_json::Value::as_array`. Trusted: `Some` with the items, in order,
/// exactly where the value is an array.
pub assume_specification[ serde_json::Value::as_array ](value: &Value) -> (items: Option<
    &Vec<Value>,
>)
    ensures
        match items {
            Some(list) => json_tree(*value) == JsonTree::List(trees_of(list@)),
            None => !(json_tree(*value) is List),
        },
;

/// `serde_json::Value::as_str`. Trusted: `Some` with the text exactly where
/// the value is a string.
pub assume_specification[ serde_json::Value::as_str ](value: &Value) -> (text: Option<&str>)
    ensures
        match text {
            Some(s) => json_tree(*value) == JsonTree::Text(s@),
            None => !(json_tree(*value) is Text),
        },
;

/// The text of a value, where it is a JSON string.
pub fn text_of(value: &Value) -> (text: Option<String>)
    ensures
        match text {
            Some(s) => json_tree(*value) == JsonTree::Text(s@),
            None => !(json_tree(*value) is Text),
        },
{
    match value.as_str() {
        Some(s) => Some(s.to_owned()),
        None => None,
    }
}

} // verus!
