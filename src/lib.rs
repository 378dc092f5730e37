//! Document-level request options and response decoding for a document
//! database's HTTP API.

pub mod document;
pub mod json;
pub mod options;
pub mod response;

pub use document::{Document, DocumentHeader};
pub use response::{DocumentResponse, ServerError};
pub use options::{
    DocumentInsertOptions, DocumentOverwriteMode, DocumentReadOptions, DocumentRemoveOptions,
    DocumentReplaceOptions, DocumentUpdateOptions,
};
