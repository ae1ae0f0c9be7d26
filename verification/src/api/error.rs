//! What the HTTP interface answers where a request fails.

use vstd::prelude::*;

verus! {

/// The body of an error answer.
#[derive(Debug, Clone, PartialEq, Eq)]
pub struct ErrorResponse {
    pub message: String,
    pub details: Option<String>,
}

/// The body of the answer to a request for something that is not there.
pub fn not_found(message: String, details: Option<String>) -> (response: ErrorResponse)
    ensures
        response.message == message,
        response.details == details,
{
    ErrorResponse { message, details }
}

} // verus!
