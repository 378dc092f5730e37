use vstd::prelude::*;

verus! {

/// The identity triple that every stored document carries.
///
/// An empty field stands for "not assigned": it is left out when the header
/// is written to the wire.
#[derive(Debug)]
pub struct DocumentHeader {
    /// Globally qualified id (`collection/key`).
    pub _id: String,
    /// Collection-local key.
    pub _key: String,
    /// Opaque revision tag.
    pub _rev: String,
}

impl DocumentHeader {
    /// True when no field of the triple has been assigned.
    pub open spec fn is_blank(&self) -> bool {
        &&& self._id@.len() == 0
        &&& self._key@.len() == 0
        &&& self._rev@.len() == 0
    }

    /// A header whose three fields are unassigned.
    pub fn empty() -> (r: DocumentHeader)
        ensures
            r.is_blank(),
    {
        DocumentHeader { _id: String::new(), _key: String::new(), _rev: String::new() }
    }
}

/// A typed payload together with its identity triple.
#[derive(Debug)]
pub struct Document<T> {
    pub header: DocumentHeader,
    pub document: T,
}

impl<T> Document<T> {
    /// Wraps a payload that has no identity yet, as sent in an insert.
    pub fn new(data: T) -> (r: Document<T>)
        ensures
            r.header.is_blank(),
            r.document == data,
    {
        Document { document: data, header: DocumentHeader::empty() }
    }
}

} // verus!
