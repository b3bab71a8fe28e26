//! The values the engine hands to its callers.

use crate::models;
use uuid::Uuid;
use vstd::prelude::*;

verus! {

/// `uuid::Uuid`, carried through as an opaque identifier: the engine never
/// looks inside a document id or a change id.
#[verifier::external_type_specification]
#[verifier::external_body]
pub struct ExUuid(uuid::Uuid);

/// `Uuid::clone`: an identifier is `Copy`, so its clone is the identifier
/// itself.
pub assume_specification[ <uuid::Uuid as Clone>::clone ](id: &uuid::Uuid) -> (res: uuid::Uuid)
    ensures
        res == *id,
;

/// A document as a caller sees it: the payload is base64 text, absent for a
/// tombstone.
#[derive(Clone, Debug, PartialEq, Eq)]
pub struct Document {
    pub id: Uuid,
    pub created_at: i64,
    pub updated_at: i64,
    pub data: Option<String>,
    pub col: String,
    pub colrev: i64,
    pub permissions: String,
}

/// A document as contracts speak of it: text as sequences of characters.
pub struct DocumentView {
    pub id: Uuid,
    pub created_at: i64,
    pub updated_at: i64,
    pub data: Option<Seq<char>>,
    pub col: Seq<char>,
    pub colrev: i64,
    pub permissions: Seq<char>,
}

impl View for Document {
    type V = DocumentView;

    open spec fn view(&self) -> DocumentView {
        DocumentView {
            id: self.id,
            created_at: self.created_at,
            updated_at: self.updated_at,
            data: match self.data {
                Some(text) => Some(text@),
                None => None,
            },
            col: self.col@,
            colrev: self.colrev,
            permissions: self.permissions@,
        }
    }
}

impl DocumentView {
    /// A tombstone is a document without a payload.
    pub open spec fn is_tombstone(self) -> bool {
        self.data is None
    }
}

pub type Collection = models::Collection;

#[derive(Clone, Debug, PartialEq, Eq)]
pub struct Group {
    pub id: String,
    pub members: Vec<String>,
}

#[derive(Clone, Debug, PartialEq, Eq)]
pub struct User {
    pub id: String,
    pub groups: Vec<String>,
}

} // verus!
