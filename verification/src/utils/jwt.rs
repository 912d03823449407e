//! Session tokens: HS256 JSON Web Tokens whose payload names the user and the expiry.

use vstd::prelude::*;
use crate::ids::{uuid_string, uuid_text};
use crate::utils::decimal::{decimal, decimal_text};

verus! {

/// How long a session token stays valid: seven days, in seconds.
pub const TOKEN_LIFETIME_SECS: i64 = 604800i64;

/// The largest UNIX timestamp that `chrono::DateTime<Utc>` represents
/// (+262142-12-31T23:59:59).
pub const MAX_TIMESTAMP: i64 = 8210266876799i64;

/// The payload of a session token: the user's id and the expiry as a UNIX timestamp.
#[derive(Debug, Clone, Copy, PartialEq, Eq, Structural)]
pub struct Claims {
    pub sub: u128,
    pub exp: usize,
}

/// The claims of a token issued at `now` (a UNIX timestamp) for `user`:
/// it expires seven days later. The timestamp is stored as `usize`, wrapping
/// as the `as` conversion does.
pub fn new_claims(user: u128, now: i64) -> (claims: Claims)
    requires
        now <= MAX_TIMESTAMP - TOKEN_LIFETIME_SECS,
    ensures
        claims.sub == user,
        claims.exp == (now + TOKEN_LIFETIME_SECS) as usize,
{
    let exp = now + TOKEN_LIFETIME_SECS;
    Claims { sub: user, exp: exp as usize }
}

/// The characters `{"sub":"` that open the claims.
pub open spec fn sub_open() -> Seq<char> {
    seq!['{', '"', 's', 'u', 'b', '"', ':', '"']
}

/// The characters `","exp":` between the subject and the expiry.
pub open spec fn exp_open() -> Seq<char> {
    seq!['"', ',', '"', 'e', 'x', 'p', '"', ':']
}

/// The JSON text of the claims, `{"sub":"<uuid>","exp":<decimal>}`, as
/// `serde_json` writes a `{ sub: Uuid, exp: usize }` record.
pub open spec fn claims_text(sub: u128, exp: usize) -> Seq<char> {
    sub_open() + uuid_text(sub) + exp_open() + decimal(exp as nat) + seq!['}']
}

/// The text is the claims text of some subject and expiry.
pub open spec fn is_claims_text(text: Seq<char>) -> bool {
    exists|sub: u128, exp: usize| text == claims_text(sub, exp)
}

/// The token that `jsonwebtoken::encode` makes for the JSON payload text
/// `payload` with the header `{"typ":"JWT","alg":"HS256"}`, signed with `secret`.
pub uninterp spec fn hs256_token(payload: Seq<char>, secret: Seq<u8>) -> Seq<char>;

/// The JSON payload text (without surrounding white space) of `token` when it
/// is a JWT whose header names HS256 and whose signature verifies under
/// `secret`, and `None` for any other text. Whether the token has expired does
/// not enter.
pub uninterp spec fn hs256_payload(token: Seq<char>, secret: Seq<u8>) -> Option<Seq<char>>;

/// `jsonwebtoken::encode` with an HS256 header and `EncodingKey::from_secret`,
/// the claims handed over as JSON text (`serde_json::value::RawValue`).
///
/// The claims text is valid JSON, so `RawValue::from_string` keeps it as it
/// is, and HMAC signing with a secret key does not fail. Verifying the token
/// with the same secret gives back the payload text.
#[verifier::external_body]
fn encode_hs256(payload: &String, secret: &[u8]) -> (token: String)
    requires
        is_claims_text(payload@),
    ensures
        token@ == hs256_token(payload@, secret@),
        hs256_payload(token@, secret@) == Some(payload@),
{
    let raw = serde_json::value::RawValue::from_string(payload.clone()).expect("claims text is JSON");
    let header = jsonwebtoken::Header::new(jsonwebtoken::Algorithm::HS256);
    let key = jsonwebtoken::EncodingKey::from_secret(secret);
    jsonwebtoken::encode(&header, &raw, &key).expect("HMAC signing does not fail")
}

/// `payload` is present and is the text `text`.
pub open spec fn holds_text(payload: Option<String>, text: Seq<char>) -> bool {
    match payload {
        Some(p) => p@ == text,
        None => false,
    }
}

/// `jsonwebtoken::decode` with `DecodingKey::from_secret` and
/// `Validation::new(HS256)`, the claims read back as JSON text.
///
/// Decoding also checks the expiry against the clock (with the default leeway
/// of 60 seconds) and refuses a payload without `exp`, so whether it succeeds
/// is not a function of the arguments: what holds of every outcome is that a
/// payload it hands back is the token's verified payload. One case does not
/// rest on the clock: the expiry check refuses a token when
/// `exp < now - 60` (`validation.rs`, `validate`), which never holds for
/// `exp == u64::MAX`; the other checks (`sub`, `iss`, `aud`, `nbf`) pass for a
/// claims text, which has none of those members but `sub`, and the default
/// validation asks nothing of `sub`. So a verified claims text with that
/// expiry is always handed back.
#[verifier::external_body]
fn decode_hs256(token: &str, secret: &[u8]) -> (payload: Option<String>)
    ensures
        payload matches Some(p) ==> hs256_payload(token@, secret@) == Some(p@),
        forall|sub: u128, exp: usize|
            exp == u64::MAX && hs256_payload(token@, secret@) == Some(#[trigger] claims_text(sub, exp))
                ==> holds_text(payload, claims_text(sub, exp)),
{
    let key = jsonwebtoken::DecodingKey::from_secret(secret);
    let validation = jsonwebtoken::Validation::new(jsonwebtoken::Algorithm::HS256);
    match jsonwebtoken::decode::<Box<serde_json::value::RawValue>>(token, &key, &validation) {
        Ok(data) => Some(data.claims.get().to_string()),
        Err(_) => None,
    }
}

/// The JSON text of `claims`.
pub fn claims_json(claims: &Claims) -> (text: String)
    ensures
        text@ == claims_text(claims.sub, claims.exp),
{
    proof {
        reveal_strlit("{\"sub\":\"");
        reveal_strlit("\",\"exp\":");
        reveal_strlit("}");
    }
    let mut text = String::from_str("{\"sub\":\"");
    assert(text@ =~= sub_open());
    let id = uuid_string(claims.sub);
    text.append(id.as_str());
    let sep = "\",\"exp\":";
    assert(sep@ =~= exp_open());
    text.append(sep);
    let exp = decimal_text(claims.exp);
    text.append(exp.as_str());
    let close = "}";
    assert(close@ =~= seq!['}']);
    text.append(close);
    assert(text@ =~= claims_text(claims.sub, claims.exp));
    text
}

/// The members of the JSON object `text`, each name with the JSON text of its
/// value, as `serde_json` reads the object into a
/// `BTreeMap<String, Box<RawValue>>`: ordered by name, a repeated name
/// keeping its last value; `None` when `text` is not a JSON object.
pub uninterp spec fn json_object_members(text: Seq<char>) -> Option<Seq<(Seq<char>, Seq<char>)>>;

/// The UUID that the JSON text `text` holds, as `serde_json` reads a `uuid::Uuid`
/// from it (a JSON string in any spelling that `Uuid::parse_str` accepts).
pub uninterp spec fn json_uuid(text: Seq<char>) -> Option<u128>;

/// The `usize` that the JSON text `text` holds, as `serde_json` reads one
/// (a JSON integer in range).
pub uninterp spec fn json_usize(text: Seq<char>) -> Option<usize>;

/// `text` between double quotes: the JSON string of a text without escapes.
pub open spec fn quoted(text: Seq<char>) -> Seq<char> {
    seq!['"'] + text + seq!['"']
}

/// The members of the claims text of `sub` and `exp`, as `json_object_members` lists them.
pub open spec fn claims_members(sub: u128, exp: usize) -> Seq<(Seq<char>, Seq<char>)> {
    seq![(seq!['e', 'x', 'p'], decimal(exp as nat)), (seq!['s', 'u', 'b'], quoted(uuid_text(sub)))]
}

/// The names and value texts of members held as strings.
pub open spec fn member_texts(members: Seq<(String, String)>) -> Seq<(Seq<char>, Seq<char>)> {
    members.map_values(|m: (String, String)| (m.0@, m.1@))
}

/// `members` is present and lists exactly `expected`.
pub open spec fn holds_members(members: Option<Vec<(String, String)>>, expected: Seq<(Seq<char>, Seq<char>)>) -> bool {
    match members {
        Some(ms) => member_texts(ms@) == expected,
        None => false,
    }
}

/// `serde_json::from_str::<BTreeMap<String, Box<RawValue>>>`: the members of a
/// JSON object with the JSON text of each value. For the claims text that
/// `claims_json` writes these are `exp` and then `sub`.
#[verifier::external_body]
fn object_members(text: &str) -> (members: Option<Vec<(String, String)>>)
    ensures
        members matches Some(ms) ==> json_object_members(text@) == Some(member_texts(ms@)),
        members is None ==> json_object_members(text@) is None,
        forall|sub: u128, exp: usize|
            text@ == #[trigger] claims_text(sub, exp) ==> holds_members(members, claims_members(sub, exp)),
{
    match serde_json::from_str::<std::collections::BTreeMap<String, Box<serde_json::value::RawValue>>>(text) {
        Ok(map) => Some(map.into_iter().map(|(name, value)| (name, value.get().to_string())).collect()),
        Err(_) => None,
    }
}

/// `serde_json::from_str::<uuid::Uuid>`: the UUID a JSON value holds. The
/// quoted hyphenated lower-case text of a UUID gives back that UUID.
#[verifier::external_body]
fn uuid_from_json(text: &str) -> (id: Option<u128>)
    ensures
        id == json_uuid(text@),
        forall|v: u128| text@ == quoted(uuid_text(v)) ==> id == Some(v),
{
    match serde_json::from_str::<uuid::Uuid>(text) {
        Ok(u) => Some(u.as_u128()),
        Err(_) => None,
    }
}

/// `serde_json::from_str::<usize>`: the `usize` a JSON value holds. The
/// decimal text of a `usize` gives back that number.
#[verifier::external_body]
fn usize_from_json(text: &str) -> (n: Option<usize>)
    ensures
        n == json_usize(text@),
        forall|v: usize| text@ == decimal(v as nat) ==> n == Some(v),
{
    serde_json::from_str::<usize>(text).ok()
}

/// The value text of the first member named `name`.
pub open spec fn member_value(members: Seq<(Seq<char>, Seq<char>)>, name: Seq<char>) -> Option<Seq<char>>
    decreases members.len(),
{
    if members.len() == 0 {
        None
    } else if members[0].0 == name {
        Some(members[0].1)
    } else {
        member_value(members.skip(1), name)
    }
}

/// The claims that a token payload names, as serde reads a
/// `{ sub: Uuid, exp: usize }` record from it: a JSON object whose `sub` is a
/// UUID and whose `exp` is a `usize`, in any order, other members ignored.
pub open spec fn payload_claims(payload: Seq<char>) -> Option<Claims> {
    match json_object_members(payload) {
        Some(ms) => match (member_value(ms, seq!['s', 'u', 'b']), member_value(ms, seq!['e', 'x', 'p'])) {
            (Some(sub), Some(exp)) => match (json_uuid(sub), json_usize(exp)) {
                (Some(s), Some(e)) => Some(Claims { sub: s, exp: e }),
                _ => None,
            },
            _ => None,
        },
        None => None,
    }
}

/// The value text of the first member named `name`.
fn find_member<'a>(members: &'a Vec<(String, String)>, name: &String) -> (value: Option<&'a String>)
    ensures
        match value {
            Some(v) => member_value(member_texts(members@), name@) == Some(v@),
            None => member_value(member_texts(members@), name@) is None,
        },
{
    let ghost all = member_texts(members@);
    let mut i: usize = 0;
    assert(all.skip(0) =~= all);
    while i < members.len()
        invariant
            i <= members@.len(),
            all == member_texts(members@),
            member_value(all, name@) == member_value(all.skip(i as int), name@),
        decreases members@.len() - i,
    {
        proof {
            assert(all.skip(i as int)[0] == all[i as int]);
            assert(all[i as int] == (members@[i as int].0@, members@[i as int].1@));
            assert(all.skip(i as int).skip(1) =~= all.skip(i + 1));
        }
        if members[i].0 == *name {
            return Some(&members[i].1);
        }
        i = i + 1;
    }
    proof {
        assert(all.skip(i as int).len() == 0);
    }
    None
}

/// The claims that a token payload names, read as serde reads the claims record.
pub fn claims_of_payload(payload: &str) -> (claims: Option<Claims>)
    ensures
        claims == payload_claims(payload@),
        forall|sub: u128, exp: usize| #![trigger claims_text(sub, exp)]
            payload@ == claims_text(sub, exp) ==> claims == Some(Claims { sub, exp }),
{
    let members = match object_members(payload) {
        Some(ms) => ms,
        None => return None,
    };
    let ghost all = member_texts(members@);
    proof {
        reveal_strlit("sub");
        reveal_strlit("exp");
        assert forall|sub: u128, exp: usize| #![trigger claims_text(sub, exp)]
            payload@ == claims_text(sub, exp) implies
                member_value(all, seq!['s', 'u', 'b']) == Some(quoted(uuid_text(sub)))
                && member_value(all, seq!['e', 'x', 'p']) == Some(decimal(exp as nat)) by {
            let cm = claims_members(sub, exp);
            assert(all == cm);
            assert(cm[0].0 != seq!['s', 'u', 'b']) by {
                assert(cm[0].0[0] != seq!['s', 'u', 'b'][0]);
            }
            assert(cm.skip(1)[0] == cm[1]);
            assert(member_value(cm.skip(1), seq!['s', 'u', 'b']) == Some(quoted(uuid_text(sub))));
        }
    }
    let sub_name = String::from_str("sub");
    let exp_name = String::from_str("exp");
    assert(sub_name@ =~= seq!['s', 'u', 'b']);
    assert(exp_name@ =~= seq!['e', 'x', 'p']);
    let sub_text = match find_member(&members, &sub_name) {
        Some(t) => t,
        None => return None,
    };
    let exp_text = match find_member(&members, &exp_name) {
        Some(t) => t,
        None => return None,
    };
    let sub = match uuid_from_json(sub_text.as_str()) {
        Some(s) => s,
        None => return None,
    };
    let exp = match usize_from_json(exp_text.as_str()) {
        Some(e) => e,
        None => return None,
    };
    Some(Claims { sub, exp })
}

/// The session token of `user`, issued at `now` and signed with `secret`:
/// the HS256 token of the claims text of `new_claims(user, now)`.
pub fn create_jwt(user: u128, now: i64, secret: &[u8]) -> (token: String)
    requires
        now <= MAX_TIMESTAMP - TOKEN_LIFETIME_SECS,
    ensures
        token@ == hs256_token(claims_text(user, (now + TOKEN_LIFETIME_SECS) as usize), secret@),
        hs256_payload(token@, secret@) == Some(claims_text(user, (now + TOKEN_LIFETIME_SECS) as usize)),
{
    let claims = new_claims(user, now);
    let text = claims_json(&claims);
    assert(is_claims_text(text@));
    encode_hs256(&text, secret)
}

/// The claims of `token` under `secret`, or `None` when the token does not
/// verify, has expired, or its payload does not name claims. The claims
/// handed back are those that the token's verified payload names.
pub fn decode_jwt(token: &str, secret: &[u8]) -> (claims: Option<Claims>)
    ensures
        claims matches Some(c) ==> (hs256_payload(token@, secret@) matches Some(p) && payload_claims(p) == Some(c)),
        forall|sub: u128, exp: usize| #![trigger claims_text(sub, exp)]
            hs256_payload(token@, secret@) == Some(claims_text(sub, exp)) && claims is Some
                ==> claims == Some(Claims { sub, exp }),
        forall|sub: u128, exp: usize| #![trigger claims_text(sub, exp)]
            exp == u64::MAX && hs256_payload(token@, secret@) == Some(claims_text(sub, exp))
                ==> claims == Some(Claims { sub, exp }),
{
    match decode_hs256(token, secret) {
        Some(payload) => claims_of_payload(payload.as_str()),
        None => None,
    }
}

/// A token that `create_jwt` issued decodes, whenever decoding succeeds, to the
/// user it was issued for and the expiry seven days after its issue.
pub proof fn lemma_issued_token_decodes_to_its_claims(
    token: Seq<char>,
    secret: Seq<u8>,
    user: u128,
    now: i64,
    decoded: Claims,
)
    requires
        hs256_payload(token, secret) == Some(claims_text(user, (now + TOKEN_LIFETIME_SECS) as usize)),
        forall|sub: u128, exp: usize| #![trigger claims_text(sub, exp)]
            hs256_payload(token, secret) == Some(claims_text(sub, exp))
                ==> Some(decoded) == Some(Claims { sub, exp }),
    ensures
        decoded.sub == user,
        decoded.exp == (now + TOKEN_LIFETIME_SECS) as usize,
{
    assert(hs256_payload(token, secret) == Some(claims_text(user, (now + TOKEN_LIFETIME_SECS) as usize)));
}

/// The value of a member is that of the first member with its name.
pub proof fn lemma_member_value_is_first_match(members: Seq<(Seq<char>, Seq<char>)>, name: Seq<char>, i: int)
    requires
        0 <= i < members.len(),
        members[i].0 == name,
        forall|j: int| 0 <= j < i ==> members[j].0 != name,
    ensures
        member_value(members, name) == Some(members[i].1),
    decreases i,
{
    if i > 0 {
        let rest = members.skip(1);
        assert forall|j: int| 0 <= j < i - 1 implies rest[j].0 != name by {
            assert(rest[j] == members[j + 1]);
        }
        assert(rest[i - 1] == members[i]);
        lemma_member_value_is_first_match(rest, name, i - 1);
    }
}

/// A name that no member has has no value.
pub proof fn lemma_member_value_absent(members: Seq<(Seq<char>, Seq<char>)>, name: Seq<char>)
    requires
        forall|j: int| 0 <= j < members.len() ==> members[j].0 != name,
    ensures
        member_value(members, name) is None,
    decreases members.len(),
{
    if members.len() > 0 {
        let rest = members.skip(1);
        assert forall|j: int| 0 <= j < rest.len() implies rest[j].0 != name by {
            assert(rest[j] == members[j + 1]);
        }
        lemma_member_value_absent(rest, name);
    }
}

/// A payload names the claims whose subject is the UUID that serde reads from
/// its `sub` member and whose expiry is the `usize` that serde reads from its
/// `exp` member, whatever other members it has and whatever the subject is.
pub proof fn lemma_payload_names_its_members(
    payload: Seq<char>,
    members: Seq<(Seq<char>, Seq<char>)>,
    sub_text: Seq<char>,
    exp_text: Seq<char>,
    sub: u128,
    exp: usize,
)
    requires
        json_object_members(payload) == Some(members),
        member_value(members, "sub"@) == Some(sub_text),
        member_value(members, "exp"@) == Some(exp_text),
        json_uuid(sub_text) == Some(sub),
        json_usize(exp_text) == Some(exp),
    ensures
        payload_claims(payload) == Some(Claims { sub, exp }),
{
    reveal_strlit("sub");
    reveal_strlit("exp");
    assert("sub"@ =~= seq!['s', 'u', 'b']);
    assert("exp"@ =~= seq!['e', 'x', 'p']);
}

/// A payload that is not an object, lacks `sub` or `exp`, or whose `sub` is
/// no UUID or whose `exp` is no `usize`, names no claims.
pub proof fn lemma_payload_without_claims(payload: Seq<char>)
    requires
        !(exists|members: Seq<(Seq<char>, Seq<char>)>, sub_text: Seq<char>, exp_text: Seq<char>|
            json_object_members(payload) == Some(members)
            && member_value(members, "sub"@) == Some(sub_text)
            && member_value(members, "exp"@) == Some(exp_text)
            && json_uuid(sub_text) is Some
            && json_usize(exp_text) is Some),
    ensures
        payload_claims(payload) is None,
{
    reveal_strlit("sub");
    reveal_strlit("exp");
    assert("sub"@ =~= seq!['s', 'u', 'b']);
    assert("exp"@ =~= seq!['e', 'x', 'p']);
    if let Some(members) = json_object_members(payload) {
        if let (Some(st), Some(et)) = (member_value(members, "sub"@), member_value(members, "exp"@)) {
            assert(json_object_members(payload) == Some(members) && member_value(members, "sub"@) == Some(st)
                && member_value(members, "exp"@) == Some(et));
        }
    }
}

} // verus!
