//! JSON documents, built and serialised by `serde_json`.
//!
//! The library never looks inside a `serde_json::Value`. What such a value
//! holds is named by [`value_doc`], and each function here that makes or
//! fills one says what it holds afterwards. None of these contracts is
//! proved: they restate what `serde_json` does.

use vstd::prelude::*;

verus! {

/// A JSON document as a mathematical value.
pub enum JsonDoc {
    Null,
    Bool(bool),
    /// A number, held by its literal.
    Number(Seq<char>),
    Text(Seq<char>),
    List(Seq<JsonDoc>),
    Object(Map<Seq<char>, JsonDoc>),
}

/// `serde_json::Value`: a JSON value, carried through without a look inside.
#[verifier::external_type_specification]
#[verifier::external_body]
pub struct ExValue(serde_json::Value);

/// `serde_json::Map`: the members of a JSON object, carried through without
/// a look inside.
#[verifier::external_type_specification]
#[verifier::external_body]
#[verifier::reject_recursive_types(K)]
#[verifier::reject_recursive_types(V)]
pub struct ExMap<K, V>(serde_json::Map<K, V>);

/// `serde_json::Error`: why serialising failed.
#[verifier::external_type_specification]
#[verifier::external_body]
pub struct ExError(serde_json::Error);

/// The members of a JSON object while it is being filled.
pub type Members = serde_json::Map<String, serde_json::Value>;

/// The document that a `serde_json::Value` holds.
pub uninterp spec fn value_doc(value: serde_json::Value) -> JsonDoc;

/// The members that a `serde_json::Map` holds, by key.
pub uninterp spec fn map_docs(members: Members) -> Map<Seq<char>, JsonDoc>;

/// What `serde_json::to_string` makes of a document: the compact JSON text
/// that it writes, or `None` where it fails. Both are a matter of the
/// document alone: the serialiser reads nothing else, and a
/// `serde_json::Map` keeps its members sorted by key, whatever the order in
/// which they were put in.
pub uninterp spec fn json_text(doc: JsonDoc) -> Option<Seq<char>>;

/// An object without members.
pub open spec fn no_members() -> Map<Seq<char>, JsonDoc> {
    Map::empty()
}

/// The documents held by a sequence of values, one for one.
pub open spec fn value_docs(values: Seq<serde_json::Value>) -> Seq<JsonDoc> {
    values.map_values(|value: serde_json::Value| value_doc(value))
}

/// `serde_json::Value::from` on a string slice: the value is a JSON string
/// with the same characters.
#[verifier::external_body]
pub(crate) fn text_value(text: &str) -> (value: serde_json::Value)
    ensures
        value_doc(value) == JsonDoc::Text(text@),
{
    serde_json::Value::from(text)
}

/// `serde_json::Value::from` on a vector of values: the value is a JSON
/// array of the same elements in the same order.
#[verifier::external_body]
pub(crate) fn list_value(items: Vec<serde_json::Value>) -> (value: serde_json::Value)
    ensures
        value_doc(value) == JsonDoc::List(value_docs(items@)),
{
    serde_json::Value::from(items)
}

/// `serde_json::Value::from` on a map: the value is a JSON object with the
/// map's members.
#[verifier::external_body]
pub(crate) fn object_value(members: Members) -> (value: serde_json::Value)
    ensures
        value_doc(value) == JsonDoc::Object(map_docs(members)),
{
    serde_json::Value::from(members)
}

/// `serde_json::Map::new`: a map without members.
#[verifier::external_body]
pub(crate) fn empty_members() -> (members: Members)
    ensures
        map_docs(members) == no_members(),
{
    serde_json::Map::new()
}

/// `serde_json::Map::insert`: afterwards the map holds `value` under `key`,
/// in place of what it held there before, and its other members as before.
#[verifier::external_body]
pub(crate) fn put_member(members: &mut Members, key: &str, value: serde_json::Value)
    ensures
        map_docs(*final(members)) == map_docs(*old(members)).insert(key@, value_doc(value)),
{
    members.insert(key.to_owned(), value);
}

/// `serde_json::to_string` on a value: its outcome is the one that
/// [`json_text`] names for the document that the value holds, the text where
/// it succeeds and none where it fails. Success itself is not promised.
#[verifier::external_body]
pub(crate) fn render(value: &serde_json::Value) -> (text: Result<String, serde_json::Error>)
    ensures
        text matches Ok(written) ==> json_text(value_doc(*value)) == Some(written@),
        text is Err ==> json_text(value_doc(*value)) is None,
{
    serde_json::to_string(value)
}

/// `to_string` of a `serde_json::Error`: the serialiser's own account of a
/// failure. Nothing is claimed of the text.
#[verifier::external_body]
pub(crate) fn failure_detail(error: &serde_json::Error) -> (detail: String) {
    error.to_string()
}

} // verus!
