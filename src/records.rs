//! The values that cross the library's boundary: requests, stored records,
//! outcomes and responses.

use vstd::prelude::*;

verus! {

/// The number of characters that a lookup key must have.
pub const CODE_LENGTH: usize = 7;

/// HTTP status: success.
pub const STATUS_OK: u16 = 200;

/// HTTP status: the lookup key is malformed.
pub const STATUS_BAD_REQUEST: u16 = 400;

/// HTTP status: no record has the code.
pub const STATUS_NOT_FOUND: u16 = 404;

/// HTTP status: the store failed, or the service cannot issue codes.
pub const STATUS_INTERNAL_SERVER_ERROR: u16 = 500;

/// A point in time in UTC: whole seconds since the Unix epoch and the
/// nanoseconds past that second.
#[derive(Clone, Copy, Debug, PartialEq, Eq, Structural)]
pub struct Timestamp {
    pub secs: i64,
    pub nanos: u32,
}

/// A stored record: the payload, its code, and when it was created.
#[derive(Clone, Debug)]
pub struct DataDocument {
    pub data: String,
    pub code: String,
    pub created_at: Timestamp,
}

/// A lookup request: the code to resolve.
#[derive(Clone, Debug)]
pub struct GetByCode {
    pub code: String,
}

/// A generation request: the payload to store under a fresh code.
#[derive(Clone, Debug)]
pub struct GenerateCode {
    pub data: String,
}

/// The store reported an error (unavailable, or the read or write was
/// rejected).
#[derive(Clone, Copy, Debug, PartialEq, Eq, Structural)]
pub struct StoreFailure;

/// What the core signals to its callers.
#[derive(Clone, Copy, Debug, PartialEq, Eq, Structural)]
pub enum ServiceError {
    /// The lookup key does not have the fixed code length.
    Validation,
    /// The store failed on a read or a write.
    StorageFailure,
    /// The record count could not be read at startup, so the counter cannot
    /// be seeded.
    StartupFailure,
    /// The counter has reached the largest sequence number it can hold.
    Exhausted,
}

/// The result of a lookup that reached the store.
#[derive(Clone, Debug)]
pub enum Lookup {
    Found(DataDocument),
    NotFound,
}

/// What a handler answers: a bare status, or a status with a record.
#[derive(Debug)]
pub enum HandlerResponse {
    Status(u16),
    DataDocument((u16, DataDocument)),
}

/// The status that reports `e`.
pub open spec fn status_spec(e: ServiceError) -> u16 {
    match e {
        ServiceError::Validation => STATUS_BAD_REQUEST,
        _ => STATUS_INTERNAL_SERVER_ERROR,
    }
}

/// The status that reports `e`.
pub fn status_of(e: ServiceError) -> (r: u16)
    ensures
        r == status_spec(e),
{
    match e {
        ServiceError::Validation => STATUS_BAD_REQUEST,
        _ => STATUS_INTERNAL_SERVER_ERROR,
    }
}

impl HandlerResponse {
    /// The answer to a generation request: the record with success, or the
    /// status of the error.
    pub fn from_generate(outcome: Result<DataDocument, ServiceError>) -> (r: HandlerResponse)
        ensures
            match outcome {
                Ok(doc) => r == HandlerResponse::DataDocument((STATUS_OK, doc)),
                Err(e) => r == HandlerResponse::Status(status_spec(e)),
            },
    {
        match outcome {
            Ok(doc) => HandlerResponse::DataDocument((STATUS_OK, doc)),
            Err(e) => HandlerResponse::Status(status_of(e)),
        }
    }

    /// The answer to a lookup: the record with success, not-found, or the
    /// status of the error.
    pub fn from_lookup(outcome: Result<Lookup, ServiceError>) -> (r: HandlerResponse)
        ensures
            match outcome {
                Ok(Lookup::Found(doc)) => r == HandlerResponse::DataDocument((STATUS_OK, doc)),
                Ok(Lookup::NotFound) => r == HandlerResponse::Status(STATUS_NOT_FOUND),
                Err(e) => r == HandlerResponse::Status(status_spec(e)),
            },
    {
        match outcome {
            Ok(Lookup::Found(doc)) => HandlerResponse::DataDocument((STATUS_OK, doc)),
            Ok(Lookup::NotFound) => HandlerResponse::Status(STATUS_NOT_FOUND),
            Err(e) => HandlerResponse::Status(status_of(e)),
        }
    }

    /// The status carried by the response.
    pub fn status(&self) -> (r: u16)
        ensures
            r == match self {
                HandlerResponse::Status(s) => *s,
                HandlerResponse::DataDocument((s, _)) => *s,
            },
    {
        match self {
            HandlerResponse::Status(s) => *s,
            HandlerResponse::DataDocument((s, _)) => *s,
        }
    }
}

} // verus!
