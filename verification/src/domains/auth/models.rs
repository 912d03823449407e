//! The inputs and answers of sign-up and sign-in.

use vstd::prelude::*;

verus! {

/// The credentials of a sign-up or sign-in.
pub struct AuthPayload {
    pub email: String,
    pub password: String,
}

/// The answer to a successful sign-up or sign-in: a session token.
pub struct AuthResponse {
    pub token: String,
}

} // verus!
