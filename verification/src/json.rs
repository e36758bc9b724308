//! Decoding of the query-response envelope `{ "odata.metadata": string,
//! "value": array }`.
//!
//! JSON itself is read through `serde_json`, behind trusted readers whose
//! results are named functions of the body bytes; the envelope rules — which
//! keys are read, that a missing `value` field means an empty page and not an
//! error — are the library's own and are verified here.
use vstd::prelude::*;
use crate::errors::TableError;
use crate::headers::opt_view;

verus! {

/// Whether a byte sequence is one well-formed JSON document, i.e. whether
/// `serde_json::from_slice::<Value>` parses it.  That outcome is a function
/// of the bytes alone.
pub uninterp spec fn json_wf(b: Seq<u8>) -> bool;

#[verifier::external_type_specification]
#[verifier::external_body]
pub struct ExValue(serde_json::Value);

/// The string under one top-level key of the JSON document in `b`: `Some`
/// exactly when `b` is a well-formed document holding a string under `key`.
/// A function of the bytes and the key alone.
pub uninterp spec fn doc_str_field(b: Seq<u8>, key: Seq<char>) -> Option<Seq<char>>;

/// The array under one top-level key of the JSON document in `b`: `None`
/// when the document holds nothing under `key` (or `b` is no document at
/// all), `Some(None)` when it holds something that is not an array, and
/// `Some(Some(items))` when it holds an array, in order.  A function of the
/// bytes and the key alone.
pub uninterp spec fn doc_array_field(b: Seq<u8>, key: Seq<char>) -> Option<
    Option<Seq<serde_json::Value>>,
>;

/// The view of what an array-field read returns.
pub open spec fn array_field_view(r: Option<Option<Vec<serde_json::Value>>>) -> Option<
    Option<Seq<serde_json::Value>>,
> {
    match r {
        None => None,
        Some(None) => Some(None),
        Some(Some(items)) => Some(Some(items@)),
    }
}

/// Relies on `serde_json::from_slice::<Value>`, `Value::get` and
/// `Value::as_str`: parses the body and reads the string under one top-level
/// key.  Returns `None` when the body is not one well-formed JSON document,
/// the key is absent, or the value under it is not a string; each outcome is
/// a function of the bytes and the key alone.
#[verifier::external_body]
fn json_str_field(body: &[u8], key: &str) -> (r: Option<String>)
    ensures
        opt_view(r) == doc_str_field(body@, key@),
        r is Some ==> json_wf(body@),
{
    let v: serde_json::Value = match serde_json::from_slice(body) {
        Ok(v) => v,
        Err(_) => return None,
    };
    match v.get(key) {
        Some(f) => match f.as_str() {
            Some(s) => Some(s.to_string()),
            None => None,
        },
        None => None,
    }
}

/// Relies on `serde_json::from_slice::<Value>`, `Value::get` and
/// `Value::as_array`: parses the body and reads the array under one top-level
/// key, keeping the elements in order.  Returns `None` when the body is not
/// one well-formed JSON document or the key is absent, and `Some(None)` when
/// the key holds something that is not an array; each outcome is a function
/// of the bytes and the key alone.
#[verifier::external_body]
fn json_array_field(body: &[u8], key: &str) -> (r: Option<Option<Vec<serde_json::Value>>>)
    ensures
        array_field_view(r) == doc_array_field(body@, key@),
        r is Some ==> json_wf(body@),
{
    let v: serde_json::Value = match serde_json::from_slice(body) {
        Ok(v) => v,
        Err(_) => return None,
    };
    match v.get(key) {
        Some(f) => match f.as_array() {
            Some(a) => Some(Some(a.clone())),
            None => Some(None),
        },
        None => None,
    }
}

/// Whether a body matches the envelope shape: one JSON document with a
/// string under `"odata.metadata"`, whose `"value"` field, where it is
/// present at all, is an array.
pub open spec fn envelope_ok(b: Seq<u8>) -> bool {
    doc_str_field(b, "odata.metadata"@) is Some && !(doc_array_field(b, "value"@) matches Some(
        None,
    ))
}

/// The envelope's metadata string (meaningful where `envelope_ok` holds).
pub open spec fn envelope_meta(b: Seq<u8>) -> Seq<char> {
    doc_str_field(b, "odata.metadata"@)->Some_0
}

/// The envelope's entities: the `"value"` array, or the empty page where the
/// field is absent.
pub open spec fn envelope_entities(b: Seq<u8>) -> Seq<serde_json::Value> {
    match doc_array_field(b, "value"@) {
        Some(Some(items)) => items,
        _ => Seq::empty(),
    }
}

/// The decoded response envelope: the server's metadata string and the
/// entities of one page.  Each entity is kept as an opaque JSON value for
/// the caller's record codec to interpret; the engine never looks inside.
#[derive(Debug, Clone, PartialEq)]
pub struct Envelope {
    pub metadata: String,
    pub entities: Vec<serde_json::Value>,
}

/// Builds the envelope from the parts read out of the response body.
///
/// `metadata` is the body's metadata string, if the body had one;
/// `value_field` is `None` when the body has no `value` field at all,
/// `Some(None)` when it has one that is not an array, and `Some(Some(items))`
/// when it has an array.  A body without a `value` field is an empty page,
/// not an error; a body without a metadata string, or whose `value` is not
/// an array, does not match the envelope shape.
pub fn assemble_envelope(
    metadata: Option<String>,
    value_field: Option<Option<Vec<serde_json::Value>>>,
) -> (r: Result<Envelope, TableError>)
    ensures
        metadata is None ==> r == Err::<Envelope, TableError>(TableError::Decode),
        metadata is Some && (value_field matches Some(None)) ==> r == Err::<
            Envelope,
            TableError,
        >(TableError::Decode),
        metadata is Some && value_field is None ==> (r matches Ok(e) && e.metadata
            == metadata->Some_0 && e.entities@ =~= Seq::<serde_json::Value>::empty()),
        metadata is Some && (value_field matches Some(Some(items))) ==> (r matches Ok(e)
            && e.metadata == metadata->Some_0 && e.entities@ == value_field->Some_0->Some_0@),
{
    let m = match metadata {
        Some(m) => m,
        None => {
            return Err(TableError::Decode);
        },
    };
    match value_field {
        None => Ok(Envelope { metadata: m, entities: Vec::new() }),
        Some(None) => Err(TableError::Decode),
        Some(Some(items)) => Ok(Envelope { metadata: m, entities: items }),
    }
}

/// Decodes a response body against the envelope shape
/// `{ "odata.metadata": string, "value": array }`.
///
/// Success is owed exactly on bodies of that shape: the result is `Ok` if and
/// only if `envelope_ok` holds of the bytes, and then carries that body's
/// metadata string and entities in order; every other body — bytes that are
/// not JSON, a body without a string under `"odata.metadata"`, a `value`
/// field that is not an array — fails with the decoding error kind.  A body
/// whose `value` field is merely absent decodes as an empty page.
pub fn decode_envelope(body: &[u8]) -> (r: Result<Envelope, TableError>)
    ensures
        r is Ok <==> envelope_ok(body@),
        envelope_ok(body@) ==> (r matches Ok(e) && e.metadata@ == envelope_meta(body@)
            && e.entities@ == envelope_entities(body@)),
        !envelope_ok(body@) ==> r == Err::<Envelope, TableError>(TableError::Decode),
        !json_wf(body@) ==> r == Err::<Envelope, TableError>(TableError::Decode),
{
    let metadata = json_str_field(body, "odata.metadata");
    let value_field = json_array_field(body, "value");
    assemble_envelope(metadata, value_field)
}

} // verus!
