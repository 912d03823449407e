//! Identifiers: UUIDs carried as their 128-bit value (`uuid::Uuid::as_u128`).

use vstd::prelude::*;

verus! {

/// `16` to the power `n`.
pub open spec fn pow16(n: nat) -> nat
    decreases n,
{
    if n == 0 {
        1
    } else {
        16 * pow16((n - 1) as nat)
    }
}

/// The `k`-th hexadecimal digit of `id`, counted from the most significant one (`0 <= k < 32`).
pub open spec fn nibble(id: u128, k: int) -> int {
    (id as int / pow16((31 - k) as nat) as int) % 16
}

/// The lower-case hexadecimal character of a digit `0 <= d < 16`.
pub open spec fn hex_char(d: int) -> char {
    if d < 10 {
        ((d + 48) as u8) as char
    } else {
        ((d + 87) as u8) as char
    }
}

/// The digit shown at position `p` of the hyphenated form (for `p` not a hyphen).
pub open spec fn digit_at(p: int) -> int {
    if p < 8 {
        p
    } else if p < 13 {
        p - 1
    } else if p < 18 {
        p - 2
    } else if p < 23 {
        p - 3
    } else {
        p - 4
    }
}

/// The hyphenated lower-case form of a UUID, `xxxxxxxx-xxxx-xxxx-xxxx-xxxxxxxxxxxx`,
/// as `uuid::Uuid`'s `Display` writes it: the 32 hexadecimal digits of the value,
/// most significant first, with hyphens at positions 8, 13, 18 and 23.
pub open spec fn uuid_text(id: u128) -> Seq<char> {
    Seq::new(36, |p: int|
        if p == 8 || p == 13 || p == 18 || p == 23 {
            '-'
        } else {
            hex_char(nibble(id, digit_at(p)))
        })
}

/// A version-4 (random) UUID: version digit 4, variant bits `10`.
pub open spec fn is_random_uuid(id: u128) -> bool {
    &&& nibble(id, 12) == 4
    &&& 8 <= nibble(id, 16) < 12
}

/// A fresh random identifier, from `uuid::Uuid::new_v4` read back with `as_u128`.
///
/// The value is random; `new_v4` masks in the version digit 4 and the variant
/// bits `10`, which is all that holds of every outcome.
#[verifier::external_body]
pub(crate) fn new_uuid() -> (id: u128)
    ensures
        is_random_uuid(id),
{
    uuid::Uuid::new_v4().as_u128()
}

/// The text of a UUID, from `uuid::Uuid::from_u128` and its `to_string`.
#[verifier::external_body]
pub(crate) fn uuid_string(id: u128) -> (text: String)
    ensures
        text@ == uuid_text(id),
{
    uuid::Uuid::from_u128(id).to_string()
}

} // verus!
