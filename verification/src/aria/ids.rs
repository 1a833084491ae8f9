//! Entity identifiers. An id is held as its 128-bit value; its text form
//! and parsing are the `uuid` crate's.

use vstd::prelude::*;
use vstd::arithmetic::power::pow;
use crate::aria::feed_registry::hex_digit;

verus! {

/// The `k`-th of the 32 hex digits of `v`, most significant first, as the
/// big-endian bytes of `Uuid::from_u128(v)` give them.
pub open spec fn uuid_nibble(v: u128, k: int) -> int {
    (v as int / pow(16, (31 - k) as nat)) % 16
}

/// How many hyphens stand before position `i` of the hyphenated form.
pub open spec fn hyphens_before(i: int) -> int {
    if i < 8 {
        0
    } else if i < 13 {
        1
    } else if i < 18 {
        2
    } else if i < 23 {
        3
    } else {
        4
    }
}

/// The hyphenated lower-case text of the UUID with this 128-bit value:
/// its 32 hex digits, with hyphens after the 8th, 12th, 16th and 20th.
pub open spec fn uuid_hyphenated(v: u128) -> Seq<char> {
    Seq::new(
        36,
        |i: int|
            if i == 8 || i == 13 || i == 18 || i == 23 {
                '-'
            } else {
                hex_digit(uuid_nibble(v, i - hyphens_before(i)))
            },
    )
}

/// The 128-bit value of the UUID that `uuid::Uuid::parse_str` reads
/// from `s`, if it accepts `s`.
pub uninterp spec fn uuid_parsed(s: Seq<char>) -> Option<u128>;

/// Formats `Uuid::from_u128(v)` with its `Display` impl, which writes the
/// hyphenated lower-case form.
#[verifier::external_body]
pub(crate) fn uuid_text(v: u128) -> (s: String)
    ensures
        s@ == uuid_hyphenated(v),
{
    uuid::Uuid::from_u128(v).to_string()
}

/// Calls `uuid::Uuid::parse_str` and returns the parsed value as `u128`
/// (`Uuid::as_u128`). The contract names the result, and states that the
/// hyphenated form of a value, which `parse_str` accepts, reads back as
/// that value.
#[verifier::external_body]
pub(crate) fn uuid_parse(s: &str) -> (r: Option<u128>)
    ensures
        r == uuid_parsed(s@),
        forall|v: u128| #[trigger] uuid_hyphenated(v) == s@ ==> r == Some(v),
{
    match uuid::Uuid::parse_str(s) {
        Ok(u) => Some(u.as_u128()),
        Err(_) => None,
    }
}

} // verus!
