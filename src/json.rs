use vstd::prelude::*;

use crate::response::{
    decode_response, decoded, DecodeError, DocumentResponse, FieldValue, ResponseFields,
};

verus! {

#[verifier::external_type_specification]
#[verifier::external_body]
pub struct ExJsonValue(serde_json::Value);

#[verifier::external_type_specification]
#[verifier::external_body]
#[verifier::reject_recursive_types(K)]
#[verifier::reject_recursive_types(V)]
pub struct ExJsonMap<K, V>(serde_json::Map<K, V>);

/// A JSON object as its keys, each with the string it holds, or `None` where
/// it holds anything else.
pub uninterp spec fn object_strings(m: serde_json::Map<String, serde_json::Value>) -> Map<
    Seq<char>,
    Option<Seq<char>>,
>;

/// Relies on `serde_json::Map::get`, which finds the value under `key`, and
/// `serde_json::Value::as_str`, which gives the string that a `Value::String`
/// holds and `None` for any other value.
#[verifier::external_body]
fn string_entry(m: &serde_json::Map<String, serde_json::Value>, key: &str) -> (r: Option<
    Option<String>,
>)
    ensures
        r is None <==> !object_strings(*m).contains_key(key@),
        r matches Some(e) ==> match e {
            Some(s) => object_strings(*m)[key@] == Some(s@),
            None => object_strings(*m)[key@] is None,
        },
{
    m.get(key).map(|v| v.as_str().map(|s| s.to_string()))
}

/// True when `v` is what the object `m` holds under `key`.
pub open spec fn field_read(
    v: FieldValue,
    m: Map<Seq<char>, Option<Seq<char>>>,
    key: Seq<char>,
) -> bool {
    match v {
        FieldValue::Absent => !m.contains_key(key),
        FieldValue::Text(s) => m.contains_key(key) && m[key] == Some(s@),
        FieldValue::NonText => m.contains_key(key) && m[key] is None,
    }
}

fn read_field(obj: &serde_json::Map<String, serde_json::Value>, key: &str) -> (r: FieldValue)
    ensures
        field_read(r, object_strings(*obj), key@),
{
    match string_entry(obj, key) {
        None => FieldValue::Absent,
        Some(Some(s)) => FieldValue::Text(s),
        Some(None) => FieldValue::NonText,
    }
}

/// True when `f` holds what the object `m` holds under `_id`, `_key`, `_rev`
/// and `_old_rev`.
pub open spec fn fields_read(f: ResponseFields, m: Map<Seq<char>, Option<Seq<char>>>) -> bool {
    &&& field_read(f.id, m, "_id"@)
    &&& field_read(f.key, m, "_key"@)
    &&& field_read(f.rev, m, "_rev"@)
    &&& field_read(f.old_rev, m, "_old_rev"@)
}

/// Reads from a response body the keys that decide its outcome.
pub fn read_response_fields(obj: &serde_json::Map<String, serde_json::Value>) -> (r:
    ResponseFields)
    ensures
        fields_read(r, object_strings(*obj)),
{
    ResponseFields {
        id: read_field(obj, "_id"),
        key: read_field(obj, "_key"),
        rev: read_field(obj, "_rev"),
        old_rev: read_field(obj, "_old_rev"),
    }
}

/// Decodes a response body, given its snapshots already read as the payload
/// type (each `None` where absent or unreadable).
pub fn decode_object<T>(
    obj: &serde_json::Map<String, serde_json::Value>,
    old: Option<T>,
    new: Option<T>,
) -> (r: Result<DocumentResponse<T>, DecodeError>)
    ensures
        exists|f: ResponseFields|
            fields_read(f, object_strings(*obj)) && r == decoded(f, old, new),
{
    let fields = read_response_fields(obj);
    let ghost f = fields;
    let r = decode_response(fields, old, new);
    assert(fields_read(f, object_strings(*obj)) && r == decoded(f, old, new));
    r
}

/// A body with no keys at all, `{}`, decodes as silent, whatever the
/// payload type and the snapshots.
pub proof fn lemma_empty_body_is_silent<T>(
    obj: serde_json::Map<String, serde_json::Value>,
    f: ResponseFields,
    old: Option<T>,
    new: Option<T>,
)
    requires
        object_strings(obj).dom() == Set::<Seq<char>>::empty(),
        fields_read(f, object_strings(obj)),
    ensures
        decoded(f, old, new) == Ok::<DocumentResponse<T>, DecodeError>(DocumentResponse::Silent),
{
}

} // verus!
