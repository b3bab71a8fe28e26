//! Merging a CRDT update into a stored snapshot, with the `loro` crate doing
//! the merge.

use crate::encoding::{base64_decode, decode};
use crate::error::{fails, SinkronError};
use crate::protocol::ErrorCode;
use vstd::prelude::*;

verus! {

/// The longest a merge may run on its worker, in milliseconds; a merge that
/// takes longer is a fault of the engine, not of the caller.
pub const MERGE_TIMEOUT_MS: u64 = 500;

/// `loro::LoroDoc`, a CRDT document.  Its content is not modelled.
#[verifier::external_type_specification]
#[verifier::external_body]
pub struct ExLoroDoc(loro::LoroDoc);

/// `LoroDoc::new`: a fresh, empty document.
#[verifier::external_body]
fn new_doc() -> loro::LoroDoc {
    loro::LoroDoc::new()
}

/// `LoroDoc::import`: whether the document accepted the bytes.  Nothing is
/// claimed about which bytes it accepts.
#[verifier::external_body]
fn import(doc: &loro::LoroDoc, bytes: &Vec<u8>) -> bool {
    doc.import(bytes).is_ok()
}

/// `LoroDoc::export` in snapshot mode: the snapshot, or `None` where
/// encoding failed.  Nothing is claimed about the bytes.
#[verifier::external_body]
fn export_snapshot(doc: &loro::LoroDoc) -> Option<Vec<u8>> {
    doc.export(loro::ExportMode::Snapshot).ok()
}

/// How an attempt to merge went.
#[derive(Clone, Debug, PartialEq, Eq)]
pub enum MergeOutcome {
    /// The stored snapshot could not be imported.
    SnapshotRejected,
    /// The incoming update could not be imported.
    UpdateRejected,
    /// The merged document could not be exported.
    ExportFailed,
    /// The new snapshot.
    Merged(Vec<u8>),
}

impl MergeOutcome {
    /// What the caller of an update sees for this outcome: a stored snapshot
    /// that does not import is the server's fault, an update that does not
    /// import or a merge that does not export is the request's.
    pub open spec fn reported(self, res: Result<Vec<u8>, SinkronError>) -> bool {
        match self {
            MergeOutcome::SnapshotRejected => fails(
                res,
                ErrorCode::InternalServerError,
                "Couldn't import snapshot, data might be corrupted"@,
            ),
            MergeOutcome::UpdateRejected => fails(
                res,
                ErrorCode::BadRequest,
                "Couldn't import update"@,
            ),
            MergeOutcome::ExportFailed => fails(
                res,
                ErrorCode::BadRequest,
                "Couldn't export snapshot"@,
            ),
            MergeOutcome::Merged(snapshot) => res == Ok::<Vec<u8>, SinkronError>(snapshot),
        }
    }

    pub fn report(self) -> (res: Result<Vec<u8>, SinkronError>)
        ensures
            self.reported(res),
    {
        match self {
            MergeOutcome::SnapshotRejected => Err(
                SinkronError::internal("Couldn't import snapshot, data might be corrupted"),
            ),
            MergeOutcome::UpdateRejected => Err(SinkronError::bad_request("Couldn't import update")),
            MergeOutcome::ExportFailed => Err(SinkronError::bad_request("Couldn't export snapshot")),
            MergeOutcome::Merged(snapshot) => Ok(snapshot),
        }
    }
}

/// Opens a fresh document, imports the snapshot, then the update, and exports
/// the result.  Each step is tried only if the one before succeeded.
fn merge(snapshot: &Vec<u8>, update: &Vec<u8>) -> MergeOutcome {
    let doc = new_doc();
    if !import(&doc, snapshot) {
        return MergeOutcome::SnapshotRejected;
    }
    if !import(&doc, update) {
        return MergeOutcome::UpdateRejected;
    }
    match export_snapshot(&doc) {
        Some(merged) => MergeOutcome::Merged(merged),
        None => MergeOutcome::ExportFailed,
    }
}

/// Applies a base64-encoded update to a snapshot and returns the new
/// snapshot.
///
/// Text that is not base64 is a `bad_request` and the CRDT is never opened;
/// otherwise the result is whatever [`MergeOutcome::report`] makes of the
/// merge.
pub fn update_loro_doc(snapshot: Vec<u8>, update: &str) -> (res: Result<Vec<u8>, SinkronError>)
    ensures
        base64_decode(update@) is None ==> fails(
            res,
            ErrorCode::BadRequest,
            "Couldn't decode update from base64"@,
        ),
        base64_decode(update@) is Some ==> exists|outcome: MergeOutcome| outcome.reported(res),
{
    let decoded = match decode(update) {
        Some(bytes) => bytes,
        None => {
            return Err(SinkronError::bad_request("Couldn't decode update from base64"));
        },
    };
    let outcome = merge(&snapshot, &decoded);
    let ghost witness = outcome;
    let res = outcome.report();
    assert(witness.reported(res));
    res
}

} // verus!
