//! The route-level extractor of the REST API: it strips every `Bearer ` from the header.

use vstd::prelude::*;
use crate::errors::AppError;
use crate::utils::authuser::{bearer_at, bearer_prefix, has_bearer_at};
use crate::utils::jwt::Claims;

verus! {

/// `s` with every occurrence of `Bearer ` removed, scanning from the left
/// (what `str::replace("Bearer ", "")` gives).
pub open spec fn without_bearer(s: Seq<char>) -> Seq<char>
    decreases s.len(),
{
    if s.len() == 0 {
        s
    } else if bearer_at(s, 0) {
        without_bearer(s.skip(7))
    } else {
        seq![s[0]] + without_bearer(s.skip(1))
    }
}

/// The header value with every `Bearer ` removed; the extractor decodes what is left.
pub fn token_without_bearer(header: &str) -> (token: String)
    ensures
        token@ == without_bearer(header@),
{
    let len = header.unicode_len();
    let mut out = String::new();
    let mut start: usize = 0;
    let mut i: usize = 0;
    assert(header@.skip(0) =~= header@);
    assert(header@.subrange(0, 0) =~= Seq::<char>::empty());
    assert(out@ + Seq::<char>::empty() + header@ =~= header@);
    while i < len
        invariant
            len == header@.len(),
            start <= i <= len,
            without_bearer(header@) == out@ + header@.subrange(start as int, i as int)
                + without_bearer(header@.skip(i as int)),
        decreases len - i,
    {
        let ghost rest = header@.skip(i as int);
        if has_bearer_at(header, len, i) {
            assert(rest.subrange(0, 7) =~= header@.subrange(i as int, i + 7));
            assert(rest.skip(7) =~= header@.skip(i + 7));
            let piece = header.substring_char(start, i);
            out.append(piece);
            start = i + 7;
            i = i + 7;
            assert(header@.subrange(start as int, i as int) =~= Seq::<char>::empty());
        } else {
            assert(rest.len() > 0);
            assert(!bearer_at(rest, 0)) by {
                if bearer_at(rest, 0) {
                    assert(header@.subrange(i as int, i + 7) =~= rest.subrange(0, 7));
                }
            }
            assert(rest.skip(1) =~= header@.skip(i + 1));
            assert(header@.subrange(start as int, i + 1) =~= header@.subrange(start as int, i as int)
                + seq![rest[0]]);
            i = i + 1;
        }
    }
    let piece = header.substring_char(start, len);
    out.append(piece);
    assert(header@.skip(len as int) =~= Seq::<char>::empty());
    out
}

/// A header without `Bearer ` anywhere passes through unchanged.
pub proof fn lemma_without_bearer_keeps_plain(s: Seq<char>)
    requires
        forall|i: int| 0 <= i < s.len() ==> !bearer_at(s, i),
    ensures
        without_bearer(s) == s,
    decreases s.len(),
{
    if s.len() > 0 {
        assert forall|i: int| 0 <= i < s.skip(1).len() implies !bearer_at(s.skip(1), i) by {
            if bearer_at(s.skip(1), i) {
                assert(s.skip(1).subrange(i, i + 7) =~= s.subrange(i + 1, i + 8));
                assert(bearer_at(s, i + 1));
            }
        }
        lemma_without_bearer_keeps_plain(s.skip(1));
        assert(s =~= seq![s[0]] + s.skip(1));
    }
}

/// `Bearer ` followed by a token without `Bearer ` in it gives back the token.
pub proof fn lemma_without_bearer_of_prefixed(token: Seq<char>)
    requires
        forall|i: int| 0 <= i < token.len() ==> !bearer_at(token, i),
    ensures
        without_bearer(bearer_prefix() + token) == token,
{
    let s = bearer_prefix() + token;
    assert(s.subrange(0, 7) =~= bearer_prefix());
    assert(s.skip(7) =~= token);
    lemma_without_bearer_keeps_plain(token);
}

/// The two extractors agree on a header `Bearer <token>` whose token holds no
/// further `Bearer `: stripping the prefix and removing every occurrence give
/// the same token.
pub proof fn lemma_extractors_agree(header: Seq<char>)
    requires
        bearer_at(header, 0),
        forall|i: int| 0 <= i < header.skip(7).len() ==> !bearer_at(header.skip(7), i),
    ensures
        without_bearer(header) == header.skip(7),
{
    assert(header =~= bearer_prefix() + header.skip(7));
    lemma_without_bearer_of_prefixed(header.skip(7));
}

/// The user that the route-level extractor hands on.
pub struct AuthUser {
    pub id: u128,
}

impl AuthUser {
    /// The extractor's decision: no readable header is `Unauthorized`, a token
    /// that did not decode (`None`) is `Authorization`, else the token's subject.
    pub fn from_request_parts(header_present: bool, decoded: Option<Claims>) -> (res: Result<AuthUser, AppError>)
        ensures
            !header_present ==> res == Err::<AuthUser, AppError>(AppError::Unauthorized),
            header_present && decoded is None ==> res == Err::<AuthUser, AppError>(AppError::Authorization),
            header_present && decoded is Some ==> res == Ok::<AuthUser, AppError>(AuthUser { id: decoded->0.sub }),
    {
        if !header_present {
            return Err(AppError::Unauthorized);
        }
        match decoded {
            None => Err(AppError::Authorization),
            Some(claims) => Ok(AuthUser { id: claims.sub }),
        }
    }
}

} // verus!
