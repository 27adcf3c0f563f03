//! JSON documents. The documents are `serde_json`'s; this module says what
//! the library relies on when it reads and extends one.

use serde_json::Value;
use vstd::prelude::*;

verus! {

/// `serde_json::Value`, a JSON document of any shape.
#[verifier::external_type_specification]
#[verifier::external_body]
pub struct ExValue(serde_json::Value);

/// The members of a document that is an object, by key; `None` for a
/// document of any other shape.
pub uninterp spec fn json_members(document: Value) -> Option<Map<Seq<char>, Value>>;

/// The document that is the string `text`.
pub uninterp spec fn json_string(text: Seq<char>) -> Value;

/// Whether the document is an object.
///
/// Trusted: `Value::is_object` is true exactly for the `Object` variant,
/// the one that has members.
#[verifier::external_body]
pub(crate) fn is_object(document: &Value) -> (object: bool)
    ensures
        object == json_members(*document).is_some(),
{
    document.is_object()
}

/// Makes the document that is the string `text`.
///
/// Trusted: `Value::String` holds the text that it is given, so equal texts
/// give equal documents.
#[verifier::external_body]
pub(crate) fn string_value(text: String) -> (document: Value)
    ensures
        document == json_string(text@),
{
    Value::String(text)
}

/// Sets the member `key` of an object to `item`, in place of what the key
/// held before, if anything.
///
/// Trusted: `Value::as_object_mut` hands out the map of an object, and
/// `Map::insert` stores the pair, replacing the value of a key that is
/// present and touching no other key.
#[verifier::external_body]
pub(crate) fn set_member(document: &mut Value, key: &str, item: Value)
    requires
        json_members(*old(document)).is_some(),
    ensures
        json_members(*final(document)) == Some(
            json_members(*old(document)).unwrap().insert(key@, item),
        ),
{
    if let Some(members) = document.as_object_mut() {
        members.insert(key.to_string(), item);
    }
}

/// A copy of a document.
///
/// Trusted: `Value::clone` is derived, and copies the document member by
/// member.
#[verifier::external_body]
pub(crate) fn copy_value(document: &Value) -> (copy: Value)
    ensures
        copy == *document,
{
    document.clone()
}

} // verus!
