//! Rows as the store keeps them.

use uuid::Uuid;
use vstd::prelude::*;

verus! {

#[derive(Clone, Debug, PartialEq, Eq)]
pub struct Collection {
    pub id: String,
    pub is_ref: bool,
    pub colrev: i64,
    pub permissions: String,
}

#[derive(Clone, Debug, PartialEq, Eq)]
pub struct NewCollection {
    pub id: String,
    pub is_ref: bool,
    pub permissions: String,
}

/// A document row.  `data` is the CRDT snapshot, absent once the document is
/// deleted; timestamps are microseconds since the Unix epoch.
#[derive(Clone, Debug, PartialEq, Eq)]
pub struct Document {
    pub id: Uuid,
    pub created_at: i64,
    pub updated_at: i64,
    pub col_id: String,
    pub colrev: i64,
    pub data: Option<Vec<u8>>,
    pub is_deleted: bool,
    pub permissions: String,
}

#[derive(Clone, Debug, PartialEq, Eq)]
pub struct NewDocument {
    pub id: Uuid,
    pub col_id: String,
    pub colrev: i64,
    pub data: Vec<u8>,
    pub permissions: String,
}

/// The columns a mutation rewrites; an absent `data` is stored as null.
#[derive(Clone, Debug, PartialEq, Eq)]
pub struct DocumentUpdate {
    pub colrev: i64,
    pub is_deleted: bool,
    pub data: Option<Vec<u8>>,
}

#[derive(Clone, Debug, PartialEq, Eq)]
pub struct Ref {
    pub id: Uuid,
    pub doc_id: Uuid,
    pub col_id: String,
}

#[derive(Clone, Debug, PartialEq, Eq)]
pub struct NewRef {
    pub doc_id: Uuid,
    pub col_id: String,
}

#[derive(Clone, Debug, PartialEq, Eq)]
pub struct Group {
    pub id: String,
}

#[derive(Clone, Debug, PartialEq, Eq)]
pub struct Member {
    pub user: String,
    pub group: String,
}

} // verus!
