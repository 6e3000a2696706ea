//! The document that describes the running service, as a JSON value.
//!
//! The value is a `serde_json::Value`. Verus does not look inside it, so
//! its content is given a name, and the few operations used here are
//! described over that name.

use vstd::prelude::*;
use crate::error::RequestError;

verus! {

/// What a JSON value holds, as far as this library builds one: a text, or
/// an object with a value for each of its keys.
pub enum JsonNode {
    Text(Seq<char>),
    Object(Map<Seq<char>, JsonNode>),
}

/// `serde_json::Value`, carried as it is.
#[verifier::external_type_specification]
#[verifier::external_body]
pub struct ExJsonValue(serde_json::Value);

/// `serde_json::Map`, carried as it is.
#[verifier::external_type_specification]
#[verifier::external_body]
#[verifier::reject_recursive_types(K)]
#[verifier::reject_recursive_types(V)]
pub struct ExJsonMap<K, V>(serde_json::Map<K, V>);

/// `serde_json::Error`, carried as it is: what the encoder reports.
#[verifier::external_type_specification]
#[verifier::external_body]
pub struct ExJsonError(serde_json::Error);

/// The content of a `serde_json::Value`.
pub uninterp spec fn json_node(value: serde_json::Value) -> JsonNode;

/// The entries of a `serde_json::Map`: the value that it holds for each
/// of its keys.
pub uninterp spec fn object_entries(map: serde_json::Map<String, serde_json::Value>) -> Map<
    Seq<char>,
    JsonNode,
>;

/// The bytes that `serde_json::to_vec` returns for a value with the given
/// content.
pub uninterp spec fn json_encoding(node: JsonNode) -> Seq<u8>;

/// `serde_json::Map::new` makes a map without entries.
pub assume_specification[ serde_json::Map::<String, serde_json::Value>::new ]() -> (object:
    serde_json::Map<String, serde_json::Value>)
    ensures
        object_entries(object) == (Map::<Seq<char>, JsonNode>::empty()),
;

/// `serde_json::Map::insert` sets the value for the key, and returns the
/// value that the map held for it before, if it held one.
pub assume_specification[ serde_json::Map::<String, serde_json::Value>::insert ](
    map: &mut serde_json::Map<String, serde_json::Value>,
    k: String,
    v: serde_json::Value,
) -> (previous: Option<serde_json::Value>)
    ensures
        object_entries(*final(map)) == object_entries(*old(map)).insert(k@, json_node(v)),
        match previous {
            Some(value) => object_entries(*old(map)).contains_key(k@) && json_node(value)
                == object_entries(*old(map))[k@],
            None => !object_entries(*old(map)).contains_key(k@),
        },
;

/// The variant `serde_json::Value::String` holds the given text.
#[verifier::external_body]
fn text_value(text: String) -> (value: serde_json::Value)
    ensures
        json_node(value) == JsonNode::Text(text@),
{
    serde_json::Value::String(text)
}

/// The variant `serde_json::Value::Object` holds the entries of the given
/// map.
#[verifier::external_body]
fn object_value(map: serde_json::Map<String, serde_json::Value>) -> (value: serde_json::Value)
    ensures
        json_node(value) == JsonNode::Object(object_entries(map)),
{
    serde_json::Value::Object(map)
}

/// `serde_json::to_vec` on a `serde_json::Value`. It returns bytes, never
/// an error: it can fail only where a map has a key that is no string or
/// where the value's own `Serialize` gives up, and a `Value` has string
/// keys and a `Serialize` that passes on what the writer reports, which
/// for a vector is nothing. What the bytes are depends on the content of
/// the value alone.
#[verifier::external_body]
fn write_json(value: &serde_json::Value) -> (written: Result<Vec<u8>, serde_json::Error>)
    ensures
        written is Ok,
        written matches Ok(bytes) ==> bytes@ == json_encoding(json_node(*value)),
{
    serde_json::to_vec(value)
}

/// The description of the service: that it runs, and what each of its
/// two endpoints is for.
pub open spec fn status_document() -> JsonNode {
    JsonNode::Object(
        map![
            "status"@ => JsonNode::Text("running"@),
            "endpoints"@ => JsonNode::Object(
                map![
                    "GET /"@ => JsonNode::Text("Server status and documentation"@),
                    "GET /genPlist"@ => JsonNode::Text(
                        "Generate iOS installation manifest (query params: bundleid, name, version, fetchurl)"@,
                    ),
                ],
            ),
        ],
    )
}

/// The encoded description of the service.
pub open spec fn encoded_status() -> Seq<u8> {
    json_encoding(status_document())
}

/// The description of the service as a JSON value, ready for the encoder.
pub fn status_value() -> (value: serde_json::Value)
    ensures
        json_node(value) == status_document(),
{
    let mut endpoints = serde_json::Map::new();
    endpoints.insert("GET /".to_owned(), text_value("Server status and documentation".to_owned()));
    endpoints.insert(
        "GET /genPlist".to_owned(),
        text_value(
            "Generate iOS installation manifest (query params: bundleid, name, version, fetchurl)".to_owned(),
        ),
    );
    assert(object_entries(endpoints) =~= status_document()->Object_0["endpoints"@]->Object_0);
    let mut document = serde_json::Map::new();
    document.insert("status".to_owned(), text_value("running".to_owned()));
    document.insert("endpoints".to_owned(), object_value(endpoints));
    assert(object_entries(document) =~= status_document()->Object_0);
    object_value(document)
}

/// Encodes the description of the service as JSON. The bytes are those
/// that the encoder returns for it. The result has the encoder's own
/// shape, and is always `Ok`.
pub fn encode_status() -> (encoded: Result<Vec<u8>, RequestError>)
    ensures
        encoded matches Ok(body) && body@ == encoded_status(),
{
    let value = status_value();
    match write_json(&value) {
        Ok(body) => Ok(body),
        Err(_) => Err(RequestError::SerializationFailure),
    }
}

} // verus!
