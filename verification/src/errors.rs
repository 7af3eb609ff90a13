//! Error types: what identifier parsing, payload validation and the
//! storage conversions report.

use vstd::prelude::*;
use crate::id::ParseIdError;

verus! {

/// An error surfaced by the request-handling services. A failed
/// validation pass reports every violation found at once, in `Multiple`.
#[derive(Debug)]
pub enum Error {
    LoginFail,
    ProjectError(String),
    ParseError(ParseIdError),
    InvalidPayload(String),
    DatabaseError,
    Multiple(Vec<Error>),
}

/// An error surfaced by the storage layer's conversions.
#[derive(Debug)]
pub enum DatabaseError {
    LoginFail,
    ConnectionError(String),
    SchemaError(String),
    QueryError(String),
    Multiple(Vec<DatabaseError>),
}

/// The error is `InvalidPayload` carrying exactly this message.
pub open spec fn is_invalid_payload(e: Error, msg: Seq<char>) -> bool {
    match e {
        Error::InvalidPayload(s) => s@ == msg,
        _ => false,
    }
}

} // verus!
