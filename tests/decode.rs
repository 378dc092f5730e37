use std::collections::BTreeMap;

use arango_document::json::{decode_object, read_response_fields};
use arango_document::response::{
    decode_response, DecodeError, FieldValue, IdentityField, ResponseFields,
};
use arango_document::{Document, DocumentResponse, ServerError};

type Payload = BTreeMap<String, i64>;

fn object(text: &str) -> serde_json::Map<String, serde_json::Value> {
    let v: serde_json::Value = serde_json::from_str(text).unwrap();
    v.as_object().unwrap().clone()
}

fn snapshot<T: serde::de::DeserializeOwned>(
    obj: &serde_json::Map<String, serde_json::Value>,
    key: &str,
) -> Option<T> {
    obj.get(key).and_then(|v| serde_json::from_value(v.clone()).ok())
}

fn decode<T: serde::de::DeserializeOwned>(text: &str) -> Result<DocumentResponse<T>, DecodeError> {
    let obj = object(text);
    let old = snapshot(&obj, "old");
    let new = snapshot(&obj, "new");
    decode_object(&obj, old, new)
}

fn x_payload(x: i64) -> Payload {
    let mut p = Payload::new();
    p.insert("x".to_string(), x);
    p
}

#[test]
fn empty_body_is_silent() {
    let r: DocumentResponse<Payload> = decode("{}").unwrap();
    assert!(r.is_silent());
    let r: DocumentResponse<String> = decode("{}").unwrap();
    assert!(r.is_silent());
    let r: DocumentResponse<i64> = decode("{}").unwrap();
    assert!(r.is_silent());
}

#[test]
fn body_without_key_is_silent() {
    let r: DocumentResponse<Payload> = decode(r#"{"_id":"c/1","_rev":"r1"}"#).unwrap();
    assert!(r.is_silent());
    assert!(!r.has_response());
}

#[test]
fn identity_only_body() {
    let r: DocumentResponse<Payload> = decode(r#"{"_id":"c/1","_key":"1","_rev":"r1"}"#).unwrap();
    assert!(r.has_response());
    assert!(!r.is_silent());
    let h = r.header().unwrap();
    assert_eq!(h._id, "c/1");
    assert_eq!(h._key, "1");
    assert_eq!(h._rev, "r1");
    assert!(r.old_doc().is_none());
    assert!(r.new_doc().is_none());
    assert!(r.old_rev().is_none());
}

#[test]
fn new_snapshot_is_read() {
    let r: DocumentResponse<Payload> =
        decode(r#"{"_id":"c/1","_key":"1","_rev":"r1","new":{"x":1}}"#).unwrap();
    assert_eq!(r.new_doc(), Some(&x_payload(1)));
    assert!(r.old_doc().is_none());
}

#[test]
fn unreadable_old_snapshot_is_dropped() {
    let r: DocumentResponse<Payload> =
        decode(r#"{"_id":"c/1","_key":"1","_rev":"r1","old":"not-an-object"}"#).unwrap();
    assert!(r.has_response());
    assert!(r.old_doc().is_none());
    assert_eq!(r.header().unwrap()._key, "1");
}

#[test]
fn both_snapshots_and_old_revision() {
    let r: DocumentResponse<Payload> = decode(
        r#"{"_id":"c/1","_key":"1","_rev":"r2","old":{"x":1},"new":{"x":2},"_old_rev":"r1"}"#,
    )
    .unwrap();
    assert_eq!(r.old_doc(), Some(&x_payload(1)));
    assert_eq!(r.new_doc(), Some(&x_payload(2)));
    assert_eq!(r.old_rev(), Some(&"r1".to_string()));
    assert_eq!(r.header().unwrap()._rev, "r2");
}

#[test]
fn non_string_old_revision_is_dropped() {
    let r: DocumentResponse<Payload> =
        decode(r#"{"_id":"c/1","_key":"1","_rev":"r1","_old_rev":7}"#).unwrap();
    assert!(r.has_response());
    assert!(r.old_rev().is_none());
}

#[test]
fn missing_id_is_an_error() {
    let r: Result<DocumentResponse<Payload>, DecodeError> = decode(r#"{"_key":"1","_rev":"r1"}"#);
    assert!(matches!(r, Err(DecodeError::Missing(IdentityField::Id))));
}

#[test]
fn missing_rev_is_an_error() {
    let r: Result<DocumentResponse<Payload>, DecodeError> = decode(r#"{"_id":"c/1","_key":"1"}"#);
    assert!(matches!(r, Err(DecodeError::Missing(IdentityField::Rev))));
}

#[test]
fn non_string_key_is_an_error() {
    let r: Result<DocumentResponse<Payload>, DecodeError> =
        decode(r#"{"_id":"c/1","_key":1,"_rev":"r1"}"#);
    assert!(matches!(r, Err(DecodeError::NotAString(IdentityField::Key))));
}

#[test]
fn first_bad_field_is_reported() {
    let r: Result<DocumentResponse<Payload>, DecodeError> = decode(r#"{"_id":null,"_key":"1"}"#);
    assert!(matches!(r, Err(DecodeError::NotAString(IdentityField::Id))));
}

#[test]
fn fields_are_read_from_the_object() {
    let obj = object(r#"{"_id":"c/1","_key":2,"other":"x"}"#);
    let f = read_response_fields(&obj);
    assert!(matches!(f.id, FieldValue::Text(ref s) if s == "c/1"));
    assert!(matches!(f.key, FieldValue::NonText));
    assert!(matches!(f.rev, FieldValue::Absent));
    assert!(matches!(f.old_rev, FieldValue::Absent));
}

#[test]
fn decode_from_fields() {
    let f = ResponseFields {
        id: FieldValue::Text("c/9".to_string()),
        key: FieldValue::Text("9".to_string()),
        rev: FieldValue::Text("r9".to_string()),
        old_rev: FieldValue::NonText,
    };
    let r = decode_response(f, Some(3i64), None).unwrap();
    assert_eq!(r.old_doc(), Some(&3));
    assert_eq!(r.new_doc(), None);
    assert_eq!(r.old_rev(), None);
    assert_eq!(r.header().unwrap()._id, "c/9");
}

#[test]
fn error_variant_is_neither_silent_nor_response() {
    let r: DocumentResponse<Payload> =
        DocumentResponse::Error(ServerError { code: 409, message: "conflict".to_string() });
    assert!(!r.is_silent());
    assert!(!r.has_response());
    assert!(r.header().is_none());
    assert!(r.old_doc().is_none());
    assert!(r.new_doc().is_none());
    assert!(r.old_rev().is_none());
}

#[test]
fn silent_has_no_parts() {
    let r: DocumentResponse<Payload> = DocumentResponse::Silent;
    assert!(r.is_silent());
    assert!(!r.has_response());
    assert!(r.header().is_none());
    assert!(r.old_rev().is_none());
}

#[test]
fn new_document_has_empty_header() {
    let d = Document::new(x_payload(1));
    assert_eq!(d.header._id, "");
    assert_eq!(d.header._key, "");
    assert_eq!(d.header._rev, "");
    assert_eq!(d.document, x_payload(1));
}
