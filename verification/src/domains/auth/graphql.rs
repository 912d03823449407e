//! The decisions of sign-up and sign-in.

use vstd::prelude::*;
use crate::errors::{api_error, ApiError};
use crate::ids::{is_random_uuid, new_uuid};

verus! {

/// The sign-up and sign-in mutations of the GraphQL schema.
pub struct AuthMutation;

impl AuthMutation {
    /// The id of a new account: fresh and random.
    pub fn new_user_id(&self) -> (id: u128)
        ensures
            is_random_uuid(id),
    {
        new_uuid()
    }

    /// The stored hash of a new password, or the error that hashing it gave.
    pub fn stored_hash(&self, hashed: Result<String, String>) -> (res: Result<String, ApiError>)
        ensures
            match hashed {
                Ok(h) => res == Ok::<String, ApiError>(h),
                Err(reason) => res matches Err(e) && e.message@ == "Failed to hash password: "@ + reason@,
            },
    {
        match hashed {
            Ok(h) => Ok(h),
            Err(reason) => {
                let prefix = String::from_str("Failed to hash password: ");
                Err(ApiError { message: prefix.concat(reason.as_str()) })
            },
        }
    }

    /// Whether a sign-in goes through: the e-mail must name an account
    /// (`user`), the password check must run, and the password must match.
    /// Every refusal other than a failed check reads `Invalid credentials`.
    pub fn login(&self, user: Option<u128>, verification: Result<bool, String>) -> (res: Result<u128, ApiError>)
        ensures
            match user {
                None => res matches Err(e) && e.message@ == "Invalid credentials"@,
                Some(id) => match verification {
                    Ok(true) => res == Ok::<u128, ApiError>(id),
                    Ok(false) => res matches Err(e) && e.message@ == "Invalid credentials"@,
                    Err(reason) => res matches Err(e) && e.message@ == "Password verification error: "@ + reason@,
                },
            },
    {
        let id = match user {
            Some(id) => id,
            None => return Err(api_error("Invalid credentials")),
        };
        match verification {
            Err(reason) => {
                let prefix = String::from_str("Password verification error: ");
                Err(ApiError { message: prefix.concat(reason.as_str()) })
            },
            Ok(valid) => {
                if !valid {
                    return Err(api_error("Invalid credentials"));
                }
                Ok(id)
            },
        }
    }
}

} // verus!
