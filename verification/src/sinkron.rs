//! The server's front: its configuration, the authentication of a
//! connecting client, the admin token, and the rules by which the admin
//! surface answers.

use crate::actors::sinkron::ConnectMessage;
use crate::db::DbConfig;
use crate::error::{fails, internal_error, SinkronError, StoreError};
use crate::protocol::{ErrorCode, ServerMessage, SyncErrorMessage};
use crate::types::Collection;
use vstd::prelude::*;
use vstd::string::StringExecFns;

verus! {

#[derive(Clone, Debug, PartialEq, Eq)]
pub struct SinkronConfig {
    pub host: String,
    pub port: u32,
    /// The token that gates the admin surface.
    pub api_token: String,
    /// Where a connecting client's token is resolved to a user id; without
    /// it every client is anonymous.
    pub sync_auth_url: Option<String>,
    pub db: DbConfig,
}

/// The host the server listens on unless configured otherwise.
pub fn default_host() -> (host: String)
    ensures
        host@ == "0.0.0.0"@,
{
    "0.0.0.0".to_owned()
}

/// The port the server listens on unless configured otherwise.
pub fn default_port() -> (port: u32)
    ensures
        port == 3000,
{
    3000
}

/// What a connecting client sends along: the collection, the colrev it has
/// seen, and its token.
#[derive(Clone, Debug, PartialEq, Eq)]
pub struct SyncParams {
    pub col: String,
    pub colrev: i64,
    pub token: String,
}

/// How a client's token is resolved.
#[derive(Clone, Debug, PartialEq, Eq)]
pub enum AuthPlan {
    /// No authentication is configured: the client is anonymous.
    Anonymous,
    /// Post an empty body to this address.
    Ask { url: String },
}

/// What came of resolving a client's token.
#[derive(Clone, Debug, PartialEq, Eq)]
pub enum AuthOutcome {
    /// No authentication is configured.
    Anonymous,
    /// The authentication endpoint could not be reached.
    Unreachable,
    /// The endpoint answered with this status and, where it could be read,
    /// this body.
    Answered { status: u16, body: Option<String> },
}

/// The HTTP status for each kind of error.
pub open spec fn status_of(code: ErrorCode) -> u16 {
    match code {
        ErrorCode::BadRequest => 400,
        ErrorCode::AuthFailed => 401,
        ErrorCode::Forbidden => 403,
        ErrorCode::NotFound => 404,
        ErrorCode::UnprocessableContent => 422,
        ErrorCode::InternalServerError => 500,
    }
}

/// The HTTP status an admin response carries for an error.
pub fn http_status(code: ErrorCode) -> (status: u16)
    ensures
        status == status_of(code),
{
    match code {
        ErrorCode::BadRequest => 400,
        ErrorCode::AuthFailed => 401,
        ErrorCode::Forbidden => 403,
        ErrorCode::NotFound => 404,
        ErrorCode::UnprocessableContent => 422,
        ErrorCode::InternalServerError => 500,
    }
}

/// Whether an admin request may pass: it must carry the configured token.
pub fn check_auth_token(api_token: &String, header: Option<&String>) -> (ok: bool)
    ensures
        ok == (header matches Some(sent) && sent@ == api_token@),
{
    match header {
        Some(sent) => *sent == *api_token,
        None => false,
    }
}

/// How to resolve a client's token: where an authentication address is
/// configured, the token is appended to it.
pub fn auth_plan(sync_auth_url: &Option<String>, token: &str) -> (plan: AuthPlan)
    ensures
        match *sync_auth_url {
            Some(address) => plan matches AuthPlan::Ask { url } && url@ == address@ + token@,
            None => plan is Anonymous,
        },
{
    match sync_auth_url {
        Some(address) => AuthPlan::Ask { url: address.clone().concat(token) },
        None => AuthPlan::Anonymous,
    }
}

/// The user a client is, given what came of resolving its token.  Only an
/// answer with status 200 and a readable body names a user; any other
/// outcome of a configured authentication is `auth_failed`.
pub fn auth(outcome: AuthOutcome) -> (res: Result<String, SinkronError>)
    ensures
        match outcome {
            AuthOutcome::Anonymous => res matches Ok(user) && user@ == "anonymous"@,
            AuthOutcome::Answered { status: 200, body: Some(user) } => res == Ok::<
                String,
                SinkronError,
            >(user),
            _ => fails(res, ErrorCode::AuthFailed, "Authentication failed"@),
        },
{
    match outcome {
        AuthOutcome::Anonymous => Ok("anonymous".to_owned()),
        AuthOutcome::Answered { status, body } => {
            if status != 200 {
                return Err(SinkronError::auth_failed("Authentication failed"));
            }
            match body {
                Some(user) => Ok(user),
                None => Err(SinkronError::auth_failed("Authentication failed")),
            }
        },
        AuthOutcome::Unreachable => Err(SinkronError::auth_failed("Authentication failed")),
    }
}

/// What becomes of a connection once its client was authenticated or not: a
/// client that is known is passed on to the root actor, any other is sent
/// `sync_error` with the error's code.
pub fn handle_connect(
    user: Result<String, SinkronError>,
    query: SyncParams,
) -> (res: Result<ConnectMessage, ServerMessage>)
    ensures
        match user {
            Ok(user) => res == Ok::<ConnectMessage, ServerMessage>(
                ConnectMessage { user, col: query.col, colrev: query.colrev },
            ),
            Err(err) => res == Err::<ConnectMessage, ServerMessage>(
                ServerMessage::SyncError(SyncErrorMessage { col: query.col, code: err.code }),
            ),
        },
{
    match user {
        Ok(user) => Ok(ConnectMessage { user, col: query.col, colrev: query.colrev }),
        Err(err) => Err(ServerMessage::SyncError(SyncErrorMessage { col: query.col, code: err.code })),
    }
}

/// Whether a collection may be created, given how many collections the store
/// counted under its id: an id that is taken is `unprocessable_content`.
pub fn create_collection(count: Result<i64, StoreError>) -> (res: Result<(), SinkronError>)
    ensures
        match count {
            Ok(n) => if n != 0 {
                fails(res, ErrorCode::UnprocessableContent, "Duplicate collection id"@)
            } else {
                res is Ok
            },
            Err(err) => res matches Err(e) && err.internal(e),
        },
{
    match count {
        Ok(n) => if n != 0 {
            Err(SinkronError::unprocessable("Duplicate collection id"))
        } else {
            Ok(())
        },
        Err(err) => Err(internal_error(err)),
    }
}

/// The collection an admin asked for, given what looking it up produced.
pub fn get_collection(found: Result<Collection, StoreError>) -> (res: Result<Collection, SinkronError>)
    ensures
        match found {
            Ok(collection) => res == Ok::<Collection, SinkronError>(collection),
            Err(err) => res matches Err(e) && err.reported("Collection not found"@, e),
        },
{
    match found {
        Ok(collection) => Ok(collection),
        Err(err) => Err(err.report("Collection not found")),
    }
}

/// What an admin is told after a row was to be rewritten, given how many
/// rows the store changed: none means that the row is not there, which is
/// `not_found` with the given text.
pub fn require_affected(
    updated: Result<usize, StoreError>,
    missing: &str,
) -> (res: Result<(), SinkronError>)
    ensures
        match updated {
            Ok(n) => if n == 0 {
                fails(res, ErrorCode::NotFound, missing@)
            } else {
                res is Ok
            },
            Err(err) => res matches Err(e) && err.internal(e),
        },
{
    match updated {
        Ok(n) => if n == 0 {
            Err(SinkronError::not_found(missing))
        } else {
            Ok(())
        },
        Err(err) => Err(internal_error(err)),
    }
}

/// What an admin is told after a collection's permissions were to be
/// rewritten.
pub fn update_collection_permissions(
    updated: Result<usize, StoreError>,
) -> (res: Result<(), SinkronError>)
    ensures
        match updated {
            Ok(n) => if n == 0 {
                fails(res, ErrorCode::NotFound, "Collection not found"@)
            } else {
                res is Ok
            },
            Err(err) => res matches Err(e) && err.internal(e),
        },
{
    require_affected(updated, "Collection not found")
}

/// What an admin is told after a document's permissions were to be
/// rewritten.
pub fn update_document_permissions(
    updated: Result<usize, StoreError>,
) -> (res: Result<(), SinkronError>)
    ensures
        match updated {
            Ok(n) => if n == 0 {
                fails(res, ErrorCode::NotFound, "Document not found"@)
            } else {
                res is Ok
            },
            Err(err) => res matches Err(e) && err.internal(e),
        },
{
    require_affected(updated, "Document not found")
}

} // verus!
