//! Errors that the request handlers answer with.

use vstd::prelude::*;

verus! {

/// Rejections of the REST handlers.
#[derive(Debug, PartialEq, Eq, Structural)]
pub enum AppError {
    /// No usable `Authorization` header, or a token that does not decode.
    Unauthorized,
    /// A token that the route-level extractor could not decode.
    Authorization,
    /// The requested row does not exist for this user.
    NotFound,
}

/// An error answered to a GraphQL request: its message.
pub struct ApiError {
    pub message: String,
}

/// The error with the given message.
pub fn api_error(message: &str) -> (e: ApiError)
    ensures
        e.message@ == message@,
{
    ApiError { message: String::from_str(message) }
}

} // verus!
