//! Who is asking: the bearer token of a request and the user it names.

use vstd::prelude::*;
use crate::errors::{api_error, AppError, ApiError};
use crate::utils::jwt::Claims;

verus! {

/// The characters of the `Bearer ` scheme prefix of an `Authorization` header.
pub open spec fn bearer_prefix() -> Seq<char> {
    seq!['B', 'e', 'a', 'r', 'e', 'r', ' ']
}

/// `s` holds the bearer prefix at character position `i`.
pub open spec fn bearer_at(s: Seq<char>, i: int) -> bool {
    0 <= i && i + 7 <= s.len() && s.subrange(i, i + 7) == bearer_prefix()
}

/// Whether the characters of `s` from position `i` on begin with `Bearer `.
pub fn has_bearer_at(s: &str, len: usize, i: usize) -> (found: bool)
    requires
        len == s@.len(),
        i <= len,
    ensures
        found == bearer_at(s@, i as int),
{
    if len - i < 7 {
        return false;
    }
    let prefix: [char; 7] = ['B', 'e', 'a', 'r', 'e', 'r', ' '];
    assert(prefix@ =~= bearer_prefix());
    let mut k: usize = 0;
    while k < 7
        invariant
            i + 7 <= len,
            len == s@.len(),
            k <= 7,
            prefix@ == bearer_prefix(),
            forall|j: int| 0 <= j < k ==> s@[i + j] == bearer_prefix()[j],
        decreases 7 - k,
    {
        if s.get_char(i + k) != prefix[k] {
            assert(s@.subrange(i as int, i + 7)[k as int] != bearer_prefix()[k as int]);
            return false;
        }
        k = k + 1;
    }
    assert(s@.subrange(i as int, i + 7) =~= bearer_prefix());
    true
}

/// The token of an `Authorization` value that starts with `Bearer `: what follows the prefix.
pub fn bearer_token(header: &str) -> (token: Option<&str>)
    ensures
        bearer_at(header@, 0) ==> (token matches Some(t) && t@ == header@.skip(7)),
        !bearer_at(header@, 0) ==> token is None,
{
    let len = header.unicode_len();
    if has_bearer_at(header, len, 0) {
        let t = header.substring_char(7, len);
        assert(t@ =~= header@.skip(7));
        Some(t)
    } else {
        None
    }
}

/// An `Authorization` value followed by a token yields that token.
pub proof fn lemma_bearer_token_of_prefixed(token: Seq<char>)
    ensures
        bearer_at(bearer_prefix() + token, 0),
        (bearer_prefix() + token).skip(7) == token,
{
    assert((bearer_prefix() + token).subrange(0, 7) =~= bearer_prefix());
    assert((bearer_prefix() + token).skip(7) =~= token);
}

/// The user a request acts for: the subject of its session token.
#[derive(Debug, Clone, Copy, PartialEq, Eq, Structural)]
pub struct AuthUser {
    pub id: u128,
}

impl AuthUser {
    /// The token of a request's `Authorization` header: a missing or unreadable
    /// header, or one without the `Bearer ` prefix, is `Unauthorized`.
    pub fn token_from_header(header: Option<&str>) -> (token: Result<&str, AppError>)
        ensures
            match header {
                Some(h) => if bearer_at(h@, 0) {
                    token matches Ok(t) && t@ == h@.skip(7)
                } else {
                    token == Err::<&str, AppError>(AppError::Unauthorized)
                },
                None => token == Err::<&str, AppError>(AppError::Unauthorized),
            },
    {
        match header {
            None => Err(AppError::Unauthorized),
            Some(h) => match bearer_token(h) {
                Some(t) => Ok(t),
                None => Err(AppError::Unauthorized),
            },
        }
    }

    /// The user named by a decoded token; a token that did not decode (`None`) is `Unauthorized`.
    pub fn from_claims(decoded: Option<Claims>) -> (user: Result<AuthUser, AppError>)
        ensures
            match decoded {
                Some(claims) => user == Ok::<AuthUser, AppError>(AuthUser { id: claims.sub }),
                None => user == Err::<AuthUser, AppError>(AppError::Unauthorized),
            },
    {
        match decoded {
            Some(claims) => Ok(AuthUser { id: claims.sub }),
            None => Err(AppError::Unauthorized),
        }
    }
}

/// The id of the signed-in user of a GraphQL request, or the error `message`
/// when the request carries no user.
pub fn require_user(user: Option<&AuthUser>, message: &str) -> (id: Result<u128, ApiError>)
    ensures
        match user {
            Some(u) => id == Ok::<u128, ApiError>(u.id),
            None => id matches Err(e) && e.message@ == message@,
        },
{
    match user {
        Some(u) => Ok(u.id),
        None => Err(api_error(message)),
    }
}

/// The scheme prefix is the text `Bearer ` (with its space).
pub proof fn lemma_bearer_prefix_text()
    ensures
        bearer_prefix() == "Bearer "@,
{
    reveal_strlit("Bearer ");
    assert(bearer_prefix() =~= "Bearer "@);
}

} // verus!
