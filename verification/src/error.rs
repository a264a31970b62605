//! Error taxonomy of the service, with its HTTP status mapping.

use vstd::prelude::*;

verus! {

/// A failure of a repository, service or handler operation.
///
/// `NotFound` reports a lookup, update or delete that matched no stored
/// document. `BadRequest` reports invalid caller input (a malformed
/// identifier, an empty required field, a duplicate email). `Internal`
/// reports a store response that violates an invariant of the store
/// itself. `StoreFailure` reports a failed store operation, and
/// `EncodingFailure` a document that could not be converted to or from
/// an entity.
#[derive(Debug)]
pub enum ApiError {
    NotFound,
    BadRequest(String),
    Internal(String),
    StoreFailure(String),
    EncodingFailure(String),
}

impl ApiError {
    /// The HTTP status that this error is rendered with.
    pub open spec fn spec_status(&self) -> int {
        match self {
            ApiError::NotFound => 404,
            ApiError::BadRequest(_) => 400,
            ApiError::Internal(_) => 500,
            ApiError::StoreFailure(_) => 500,
            ApiError::EncodingFailure(_) => 500,
        }
    }

    /// The message that this error is rendered with.
    pub open spec fn spec_message(&self) -> Seq<char> {
        match self {
            ApiError::NotFound => "Resource not found"@,
            ApiError::BadRequest(m) => m@,
            ApiError::Internal(m) => m@,
            ApiError::StoreFailure(m) => m@,
            ApiError::EncodingFailure(m) => m@,
        }
    }

    /// Client faults map to 400, a miss to 404, store-side faults to 500.
    pub fn status_code(&self) -> (c: u16)
        ensures
            c as int == self.spec_status(),
    {
        match self {
            ApiError::NotFound => 404,
            ApiError::BadRequest(_) => 400,
            ApiError::Internal(_) => 500,
            ApiError::StoreFailure(_) => 500,
            ApiError::EncodingFailure(_) => 500,
        }
    }

    /// The body of the HTTP response carries this message.
    pub fn message(&self) -> (m: String)
        ensures
            m@ == self.spec_message(),
    {
        match self {
            ApiError::NotFound => String::from_str("Resource not found"),
            ApiError::BadRequest(m) => m.clone(),
            ApiError::Internal(m) => m.clone(),
            ApiError::StoreFailure(m) => m.clone(),
            ApiError::EncodingFailure(m) => m.clone(),
        }
    }
}

} // verus!
