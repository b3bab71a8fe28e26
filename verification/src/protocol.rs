//! The wire protocol: the envelopes a client and the server exchange.

use uuid::Uuid;
use vstd::prelude::*;

verus! {

/// The six kinds every observable failure reduces to.
#[derive(Clone, Copy, Debug, PartialEq, Eq, Structural)]
pub enum ErrorCode {
    BadRequest,
    AuthFailed,
    NotFound,
    Forbidden,
    UnprocessableContent,
    InternalServerError,
}

#[derive(Clone, Copy, Debug, PartialEq, Eq, Structural)]
pub struct HeartbeatMessage {
    pub i: i32,
}

#[derive(Clone, Debug, PartialEq, Eq)]
pub struct SyncErrorMessage {
    pub col: String,
    pub code: ErrorCode,
}

#[derive(Clone, Debug, PartialEq, Eq)]
pub struct SyncCompleteMessage {
    pub col: String,
    pub colrev: i64,
}

#[derive(Clone, Debug, PartialEq, Eq)]
pub struct GetMessage {
    pub id: Uuid,
    pub col: String,
}

#[derive(Clone, Debug, PartialEq, Eq)]
pub struct GetErrorMessage {
    pub id: Uuid,
    pub code: ErrorCode,
}

/// A document as it travels to a client.  Timestamps are microseconds since
/// the Unix epoch, the resolution the store keeps.
#[derive(Clone, Debug, PartialEq, Eq)]
pub struct DocMessage {
    pub id: Uuid,
    pub col: String,
    pub colrev: i64,
    pub data: Option<String>,
    pub created_at: i64,
    pub updated_at: i64,
}

/// The kind of a change: `+` on the wire creates, `-` deletes, `*` updates.
#[derive(Clone, Copy, Debug, PartialEq, Eq, Structural)]
pub enum Op {
    Create,
    Delete,
    Update,
}

#[derive(Clone, Debug, PartialEq, Eq)]
pub struct ClientChangeMessage {
    pub id: Uuid,
    pub col: String,
    pub op: Op,
    pub data: Option<String>,
    pub changeid: Uuid,
}

#[derive(Clone, Debug, PartialEq, Eq)]
pub struct ServerChangeMessage {
    pub id: Uuid,
    pub col: String,
    pub op: Op,
    pub data: Option<String>,
    pub changeid: Uuid,
    pub colrev: i64,
    pub created_at: i64,
    pub updated_at: i64,
}

#[derive(Clone, Debug, PartialEq, Eq)]
pub struct ChangeErrorMessage {
    pub code: ErrorCode,
    pub id: Uuid,
    pub changeid: Uuid,
}

#[derive(Clone, Debug, PartialEq, Eq)]
pub enum ClientMessage {
    Heartbeat(HeartbeatMessage),
    Get(GetMessage),
    Change(ClientChangeMessage),
}

#[derive(Clone, Debug, PartialEq, Eq)]
pub enum ServerMessage {
    Heartbeat(HeartbeatMessage),
    SyncComplete(SyncCompleteMessage),
    SyncError(SyncErrorMessage),
    GetError(GetErrorMessage),
    Doc(DocMessage),
    Change(ServerChangeMessage),
    ChangeError(ChangeErrorMessage),
}

} // verus!
