use vstd::prelude::*;

use crate::document::DocumentHeader;

verus! {

/// The error detail that the server reports with a non-success status.
#[derive(Debug)]
pub struct ServerError {
    /// HTTP status code.
    pub code: u16,
    /// Human-readable message.
    pub message: String,
}

/// The outcome of a document operation, as read from the response body.
#[derive(Debug)]
pub enum DocumentResponse<T> {
    /// The server answered with an empty object.
    Silent,
    /// The server answered with the document's metadata, and the snapshots
    /// that were asked for.
    Response {
        header: DocumentHeader,
        old: Option<T>,
        new: Option<T>,
        _old_rev: Option<String>,
    },
    /// The server reported an error.
    Error(ServerError),
}

impl<T> DocumentResponse<T> {
    /// True exactly when the server sent back an empty object.
    pub fn is_silent(&self) -> (r: bool)
        ensures
            r == (self is Silent),
    {
        match self {
            DocumentResponse::Silent => true,
            _ => false,
        }
    }

    /// True exactly when the server sent back document metadata.
    pub fn has_response(&self) -> (r: bool)
        ensures
            r == (self is Response),
    {
        match self {
            DocumentResponse::Response { .. } => true,
            _ => false,
        }
    }

    /// The document header of a response, if there is one.
    pub fn header(&self) -> (r: Option<&DocumentHeader>)
        ensures
            match self {
                DocumentResponse::Response { header, .. } => r == Some(header),
                _ => r is None,
            },
    {
        match self {
            DocumentResponse::Response { header, .. } => Some(header),
            _ => None,
        }
    }

    /// The document as it was before the operation, if the server sent it.
    pub fn old_doc(&self) -> (r: Option<&T>)
        ensures
            match self {
                DocumentResponse::Response { old: Some(d), .. } => r == Some(d),
                _ => r is None,
            },
    {
        match self {
            DocumentResponse::Response { old: Some(d), .. } => Some(d),
            _ => None,
        }
    }

    /// The document as it is after the operation, if the server sent it.
    pub fn new_doc(&self) -> (r: Option<&T>)
        ensures
            match self {
                DocumentResponse::Response { new: Some(d), .. } => r == Some(d),
                _ => r is None,
            },
    {
        match self {
            DocumentResponse::Response { new: Some(d), .. } => Some(d),
            _ => None,
        }
    }

    /// The revision that the document had before the operation, if the
    /// server sent it.
    pub fn old_rev(&self) -> (r: Option<&String>)
        ensures
            match self {
                DocumentResponse::Response { _old_rev: Some(s), .. } => r == Some(s),
                _ => r is None,
            },
    {
        match self {
            DocumentResponse::Response { _old_rev: Some(s), .. } => Some(s),
            _ => None,
        }
    }
}

/// What a response body holds under one of the keys that the decoder reads
/// as a string.
#[derive(Debug)]
pub enum FieldValue {
    /// The key is not in the body.
    Absent,
    /// The key holds a string.
    Text(String),
    /// The key holds something other than a string.
    NonText,
}

/// The three fields of the identity triple.
#[derive(Debug, Clone, Copy, PartialEq, Eq, Structural)]
pub enum IdentityField {
    Id,
    Key,
    Rev,
}

/// Why a response body could not be decoded.
#[derive(Debug, Clone, Copy, PartialEq, Eq, Structural)]
pub enum DecodeError {
    /// The body is not a JSON object.
    NotAnObject,
    /// The body names a key but lacks this field of the identity triple.
    Missing(IdentityField),
    /// This field of the identity triple holds something other than a string.
    NotAString(IdentityField),
}

/// The string-valued keys of a response body that decide its outcome.
#[derive(Debug)]
pub struct ResponseFields {
    /// Under `_id`.
    pub id: FieldValue,
    /// Under `_key`.
    pub key: FieldValue,
    /// Under `_rev`.
    pub rev: FieldValue,
    /// Under `_old_rev`.
    pub old_rev: FieldValue,
}

/// The error for a field of the identity triple that does not hold a string.
pub open spec fn field_error(v: FieldValue, which: IdentityField) -> DecodeError {
    match v {
        FieldValue::Absent => DecodeError::Missing(which),
        _ => DecodeError::NotAString(which),
    }
}

/// The first field of the identity triple, in the order `_id`, `_key`,
/// `_rev`, that does not hold a string, as an error.
pub open spec fn identity_error(f: ResponseFields) -> Option<DecodeError> {
    if !(f.id is Text) {
        Some(field_error(f.id, IdentityField::Id))
    } else if !(f.key is Text) {
        Some(field_error(f.key, IdentityField::Key))
    } else if !(f.rev is Text) {
        Some(field_error(f.rev, IdentityField::Rev))
    } else {
        None
    }
}

/// The string of a field, when it holds one.
pub open spec fn text_of(v: FieldValue) -> Option<String> {
    match v {
        FieldValue::Text(s) => Some(s),
        _ => None,
    }
}

/// What decoding a body with these fields and these snapshots yields: silent
/// without `_key`, else the identity triple (or the first field of it that is
/// not a string), with each snapshot and the old revision where present.
pub open spec fn decoded<T>(f: ResponseFields, old: Option<T>, new: Option<T>) -> Result<
    DocumentResponse<T>,
    DecodeError,
> {
    if f.key is Absent {
        Ok(DocumentResponse::Silent)
    } else if identity_error(f) is Some {
        Err(identity_error(f)->Some_0)
    } else {
        Ok(
            DocumentResponse::Response {
                header: DocumentHeader {
                    _id: f.id->Text_0,
                    _key: f.key->Text_0,
                    _rev: f.rev->Text_0,
                },
                old,
                new,
                _old_rev: text_of(f.old_rev),
            },
        )
    }
}

fn take_identity(v: FieldValue, which: IdentityField) -> (r: Result<String, DecodeError>)
    ensures
        match v {
            FieldValue::Text(s) => r == Ok::<String, DecodeError>(s),
            _ => r == Err::<String, DecodeError>(field_error(v, which)),
        },
{
    match v {
        FieldValue::Text(s) => Ok(s),
        FieldValue::Absent => Err(DecodeError::Missing(which)),
        FieldValue::NonText => Err(DecodeError::NotAString(which)),
    }
}

/// Classifies a response body by the keys it holds.
///
/// `old` and `new` are the body's snapshots, each already read as the payload
/// type where present and readable, and `None` otherwise. A body without
/// `_key` is silent; one with it must hold `_id`, `_key` and `_rev` as
/// strings.
pub fn decode_response<T>(fields: ResponseFields, old: Option<T>, new: Option<T>) -> (r: Result<
    DocumentResponse<T>,
    DecodeError,
>)
    ensures
        r == decoded(fields, old, new),
{
    if let FieldValue::Absent = fields.key {
        return Ok(DocumentResponse::Silent);
    }
    let ResponseFields { id, key, rev, old_rev } = fields;
    let _id = match take_identity(id, IdentityField::Id) {
        Ok(s) => s,
        Err(e) => return Err(e),
    };
    let _key = match take_identity(key, IdentityField::Key) {
        Ok(s) => s,
        Err(e) => return Err(e),
    };
    let _rev = match take_identity(rev, IdentityField::Rev) {
        Ok(s) => s,
        Err(e) => return Err(e),
    };
    let _old_rev = match old_rev {
        FieldValue::Text(s) => Some(s),
        _ => None,
    };
    Ok(DocumentResponse::Response { header: DocumentHeader { _id, _key, _rev }, old, new, _old_rev })
}

} // verus!
