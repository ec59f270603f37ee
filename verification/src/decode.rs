//! Decoding of a response body: the text goes through `serde_json`, and what
//! comes back is handed on as a [`Json`] tree.

use vstd::prelude::*;
use crate::error::{Error, ErrorView};
use crate::json::{Json, JsonTree};

verus! {

/// `serde_json::Value`, the decoder's own tree. Nothing here looks inside one;
/// it goes from the decoder straight into [`tree_of`].
#[verifier::external_type_specification]
#[verifier::external_body]
pub struct ExValue(serde_json::Value);

/// What `serde_json::from_str` makes of a text: the tree of the value it
/// returns, or the message of the error it returns.
pub uninterp spec fn document(text: Seq<char>) -> Result<JsonTree, Seq<char>>;

/// The tree that a `serde_json::Value` holds: null, a boolean, a string, an
/// array and an object stand for themselves, an object's members in the order
/// in which its map hands them out; a number stands as what its `as_i64`
/// returns.
pub uninterp spec fn value_tree(value: serde_json::Value) -> JsonTree;

/// Calls `serde_json::from_str`, which parses a whole text as one JSON value
/// and fails on anything else. Claimed: the outcome is the one that
/// [`document`] names for this text, an error being given by its message.
#[verifier::external_body]
fn parse_value(text: &str) -> (parsed: Result<serde_json::Value, String>)
    ensures
        document(text@) == match parsed {
            Ok(value) => Ok(value_tree(value)),
            Err(message) => Err(message@),
        },
{
    serde_json::from_str::<serde_json::Value>(text).map_err(|error| error.to_string())
}

/// Moves a `serde_json::Value` into a [`Json`], variant by variant, calling
/// `Number::as_i64` for a number. Claimed: the result's tree is the one that
/// [`value_tree`] names for the value.
#[verifier::external_body]
fn tree_of(value: serde_json::Value) -> (tree: Json)
    ensures
        tree@ == value_tree(value),
{
    match value {
        serde_json::Value::Null => Json::Null,
        serde_json::Value::Bool(flag) => Json::Bool(flag),
        serde_json::Value::Number(number) => Json::Number(number.as_i64()),
        serde_json::Value::String(text) => Json::String(text),
        serde_json::Value::Array(items) => Json::Array(items.into_iter().map(tree_of).collect()),
        serde_json::Value::Object(members) => Json::Object(
            members.into_iter().map(|(name, item)| (name, tree_of(item))).collect(),
        ),
    }
}

/// Decodes a response body. The body must be one JSON value; anything else is
/// a decode failure, reported with the decoder's message.
pub fn decode(body: &str) -> (decoded: Result<Json, Error>)
    ensures
        match document(body@) {
            Ok(tree) => decoded matches Ok(value) && value@ == tree,
            Err(message) => decoded matches Err(error) && error@ == ErrorView::Decode(message),
        },
{
    match parse_value(body) {
        Ok(value) => Ok(tree_of(value)),
        Err(message) => Err(Error::Decode(message)),
    }
}

} // verus!
