//! The structured document that an unpacked script carries, read through
//! `serde_json`.

use vstd::prelude::*;

verus! {

/// What a path into a document leads to.
#[derive(Debug, Clone, PartialEq, Eq)]
pub enum JsonNode {
    /// The text is no document at all.
    Invalid,
    /// The document has nothing at the path.
    Missing,
    Null,
    Flag(bool),
    /// A number, as `serde_json` writes it.
    Number(String),
    Text(String),
    /// A list, by its length.
    List(usize),
    Record,
}

/// A [`JsonNode`] over sequences of characters.
pub enum NodeSpec {
    Invalid,
    Missing,
    Null,
    Flag(bool),
    Number(Seq<char>),
    Text(Seq<char>),
    List(nat),
    Record,
}

impl View for JsonNode {
    type V = NodeSpec;

    open spec fn view(&self) -> NodeSpec {
        match self {
            JsonNode::Invalid => NodeSpec::Invalid,
            JsonNode::Missing => NodeSpec::Missing,
            JsonNode::Null => NodeSpec::Null,
            JsonNode::Flag(flag) => NodeSpec::Flag(*flag),
            JsonNode::Number(digits) => NodeSpec::Number(digits@),
            JsonNode::Text(text) => NodeSpec::Text(text@),
            JsonNode::List(length) => NodeSpec::List(*length as nat),
            JsonNode::Record => NodeSpec::Record,
        }
    }
}

/// What the JSON pointer `pointer` leads to in the JSON text `document`, as
/// `serde_json` parses the text and resolves the pointer.
pub uninterp spec fn node_at(document: Seq<char>, pointer: Seq<char>) -> NodeSpec;

/// Calls `serde_json::from_str` for a `serde_json::Value` and
/// `serde_json::Value::pointer` on it. The contract claims only that the
/// node handed back is what `serde_json` finds for this text and this
/// pointer: a number by its `Display` text, a list by its length.
#[verifier::external_body]
pub(crate) fn json_node(document: &str, pointer: &str) -> (node: JsonNode)
    ensures
        node@ == node_at(document@, pointer@),
{
    let Ok(value) = serde_json::from_str::<serde_json::Value>(document) else {
        return JsonNode::Invalid;
    };
    match value.pointer(pointer) {
        None => JsonNode::Missing,
        Some(serde_json::Value::Null) => JsonNode::Null,
        Some(serde_json::Value::Bool(flag)) => JsonNode::Flag(*flag),
        Some(serde_json::Value::Number(number)) => JsonNode::Number(number.to_string()),
        Some(serde_json::Value::String(text)) => JsonNode::Text(text.clone()),
        Some(serde_json::Value::Array(items)) => JsonNode::List(items.len()),
        Some(serde_json::Value::Object(_)) => JsonNode::Record,
    }
}

} // verus!
