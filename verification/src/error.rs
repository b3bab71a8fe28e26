//! The engine's error value: one of the six kinds, with a message for
//! operators.

use crate::protocol::ErrorCode;
use vstd::prelude::*;

verus! {

#[derive(Clone, Debug, PartialEq, Eq)]
pub struct SinkronError {
    pub code: ErrorCode,
    pub message: String,
}

impl SinkronError {
    /// Whether this error has the given kind and exactly the given text.
    pub open spec fn is(&self, code: ErrorCode, message: Seq<char>) -> bool {
        self.code == code && self.message@ == message
    }

    pub fn bad_request(msg: &str) -> (e: Self)
        ensures
            e.is(ErrorCode::BadRequest, msg@),
    {
        Self { code: ErrorCode::BadRequest, message: msg.to_owned() }
    }

    pub fn auth_failed(msg: &str) -> (e: Self)
        ensures
            e.is(ErrorCode::AuthFailed, msg@),
    {
        Self { code: ErrorCode::AuthFailed, message: msg.to_owned() }
    }

    pub fn not_found(msg: &str) -> (e: Self)
        ensures
            e.is(ErrorCode::NotFound, msg@),
    {
        Self { code: ErrorCode::NotFound, message: msg.to_owned() }
    }

    pub fn forbidden(msg: &str) -> (e: Self)
        ensures
            e.is(ErrorCode::Forbidden, msg@),
    {
        Self { code: ErrorCode::Forbidden, message: msg.to_owned() }
    }

    pub fn unprocessable(msg: &str) -> (e: Self)
        ensures
            e.is(ErrorCode::UnprocessableContent, msg@),
    {
        Self { code: ErrorCode::UnprocessableContent, message: msg.to_owned() }
    }

    pub fn internal(msg: &str) -> (e: Self)
        ensures
            e.is(ErrorCode::InternalServerError, msg@),
    {
        Self { code: ErrorCode::InternalServerError, message: msg.to_owned() }
    }
}

/// Whether `res` is the error of the given kind with exactly the given text.
pub open spec fn fails<T>(res: Result<T, SinkronError>, code: ErrorCode, message: Seq<char>) -> bool {
    res matches Err(e) && e.is(code, message)
}

/// How a row operation can fail, as far as the engine tells failures apart: the
/// row is not there, or the store could not answer.
#[derive(Clone, Debug, PartialEq, Eq)]
pub enum StoreError {
    NotFound,
    Failed(String),
}

impl StoreError {
    /// The error a caller sees for this failure: a missing row is
    /// `not_found` with the given text, anything else is
    /// `internal_server_error` with the store's own words.
    pub open spec fn reported(&self, missing: Seq<char>, e: SinkronError) -> bool {
        match *self {
            StoreError::NotFound => e.is(ErrorCode::NotFound, missing),
            StoreError::Failed(text) => e.is(ErrorCode::InternalServerError, text@),
        }
    }

    pub fn report(self, missing: &str) -> (e: SinkronError)
        ensures
            self.reported(missing@, e),
    {
        match self {
            StoreError::NotFound => SinkronError::not_found(missing),
            StoreError::Failed(text) => SinkronError {
                code: ErrorCode::InternalServerError,
                message: text,
            },
        }
    }
}

impl StoreError {
    /// The error a caller sees where the operation did not look a row up by
    /// key: always `internal_server_error`, with the store's own words.
    pub open spec fn internal(&self, e: SinkronError) -> bool {
        match *self {
            StoreError::NotFound => e.is(ErrorCode::InternalServerError, "Record not found"@),
            StoreError::Failed(text) => e.is(ErrorCode::InternalServerError, text@),
        }
    }
}

/// Any failure of the store seen as `internal_server_error`.
pub fn internal_error(err: StoreError) -> (e: SinkronError)
    ensures
        err.internal(e),
{
    match err {
        StoreError::NotFound => SinkronError::internal("Record not found"),
        StoreError::Failed(text) => SinkronError { code: ErrorCode::InternalServerError, message: text },
    }
}

} // verus!
