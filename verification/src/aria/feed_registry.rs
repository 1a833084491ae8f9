//! Feed definitions as the scheduler reads them, the defaults of an
//! upload, and the hash that identifies a feed's handler code.

use vstd::prelude::*;
use vstd::string::*;
use crate::json::JsonValue;

verus! {

/// A registered feed definition.
#[derive(Debug, Clone)]
pub struct AriaFeed {
    pub id: u128,
    pub tenant_id: String,
    pub name: String,
    pub description: String,
    pub handler_code: String,
    pub handler_hash: String,
    pub schedule: String,
    pub refresh_seconds: i32,
    pub category: String,
    pub retention: Option<JsonValue>,
    pub display: Option<JsonValue>,
    pub status: String,
}

/// Refresh interval of an uploaded feed that names none: an hour.
pub fn default_refresh_seconds() -> (n: i32)
    ensures
        n == 3600,
{
    3600
}

/// Category of an uploaded feed that names none.
pub fn default_category() -> (s: String)
    ensures
        s@ == "general"@,
{
    String::from_str("general")
}

/// The SHA-256 digest of a byte string.
pub uninterp spec fn sha256_digest(bytes: Seq<u8>) -> Seq<u8>;

/// Calls `sha2::Sha256::digest` (through the `Digest` trait) on the bytes
/// and returns the digest's bytes. The contract names the digest; the
/// crate fixes its length at 32 bytes.
#[verifier::external_body]
fn sha256(bytes: &[u8]) -> (d: Vec<u8>)
    ensures
        d@ == sha256_digest(bytes@),
        d@.len() == 32,
{
    <sha2::Sha256 as sha2::Digest>::digest(bytes).to_vec()
}

/// The lower-case hex digit of a value below 16.
pub open spec fn hex_digit(d: int) -> char {
    if d < 10 {
        ((d + 48) as u8) as char
    } else {
        ((d + 87) as u8) as char
    }
}

/// Bytes as lower-case hex, two digits per byte, as `{:x}` writes a digest.
pub open spec fn hex_lower(bytes: Seq<u8>) -> Seq<char>
    decreases bytes.len(),
{
    if bytes.len() == 0 {
        Seq::empty()
    } else {
        hex_lower(bytes.drop_last()) + seq![
            hex_digit(bytes.last() as int / 16),
            hex_digit(bytes.last() as int % 16),
        ]
    }
}

/// The hex digit of a value below 16.
fn hex_char(d: u8) -> (c: &'static str)
    requires
        d < 16,
    ensures
        c@ == seq![hex_digit(d as int)],
{
    proof {
        reveal_strlit("0");
        reveal_strlit("1");
        reveal_strlit("2");
        reveal_strlit("3");
        reveal_strlit("4");
        reveal_strlit("5");
        reveal_strlit("6");
        reveal_strlit("7");
        reveal_strlit("8");
        reveal_strlit("9");
        reveal_strlit("a");
        reveal_strlit("b");
        reveal_strlit("c");
        reveal_strlit("d");
        reveal_strlit("e");
        reveal_strlit("f");
    }
    let c = match d {
        0 => "0",
        1 => "1",
        2 => "2",
        3 => "3",
        4 => "4",
        5 => "5",
        6 => "6",
        7 => "7",
        8 => "8",
        9 => "9",
        10 => "a",
        11 => "b",
        12 => "c",
        13 => "d",
        14 => "e",
        _ => "f",
    };
    proof {
        assert(c@ =~= seq![hex_digit(d as int)]);
    }
    c
}

/// The hash stored beside a feed's handler code: the SHA-256 digest of the
/// code's UTF-8 bytes, in lower-case hex.
pub fn handler_hash(code: &str) -> (h: String)
    ensures
        h@ == hex_lower(sha256_digest(code.spec_bytes())),
        h@.len() == 64,
{
    let digest = sha256(code.as_bytes());
    let mut h = String::new();
    let n = digest.len();
    let mut i: usize = 0;
    while i < n
        invariant
            n == digest@.len(),
            i <= n,
            h@ == hex_lower(digest@.take(i as int)),
            h@.len() == 2 * i,
        decreases n - i,
    {
        let b = digest[i];
        h.append(hex_char(b / 16));
        h.append(hex_char(b % 16));
        proof {
            assert(digest@.take(i + 1).drop_last() =~= digest@.take(i as int));
            assert(digest@.take(i + 1).last() == b);
            assert(h@ =~= hex_lower(digest@.take(i + 1)));
        }
        i = i + 1;
    }
    proof {
        assert(digest@.take(n as int) =~= digest@);
    }
    h
}

} // verus!
