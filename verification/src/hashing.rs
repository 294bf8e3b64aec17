//! The one-way hash behind signatures and block seals.
//!
//! The digest itself comes from the `sha2` crate; this library names its
//! result with `sha256_hex` and reasons about everything built on top of
//! it (payload layout, chain links) without restating the algorithm.

use sha2::Digest;
use vstd::prelude::*;

verus! {

/// The lowercase hexadecimal SHA-256 digest of the UTF-8 encoding of `s`.
/// The digest is a function of the input characters alone; nothing more
/// is assumed of it here.
pub uninterp spec fn sha256_hex(s: Seq<char>) -> Seq<char>;

/// A lowercase hexadecimal digit: `'0'` to `'9'` or `'a'` to `'f'`.
pub open spec fn is_lower_hex_char(c: char) -> bool {
    ('0' as u32 <= c as u32 && c as u32 <= '9' as u32) || ('a' as u32 <= c as u32 && c as u32
        <= 'f' as u32)
}

/// Relies on `sha2::Sha256` (through the `Digest` trait): the digest of a
/// byte string depends on those bytes alone, and a 256-bit digest renders
/// as exactly 64 hexadecimal characters, two lowercase digits per byte.
#[verifier::external_body]
pub(crate) fn sha256_hex_of(s: &str) -> (r: String)
    ensures
        r@ == sha256_hex(s@),
        r@.len() == 64,
        forall|i: int| 0 <= i < r@.len() ==> is_lower_hex_char(#[trigger] r@[i]),
{
    let mut hasher = sha2::Sha256::new();
    hasher.update(s.as_bytes());
    let result = hasher.finalize();
    result.iter().map(|byte| format!("{:02x}", byte)).collect::<String>()
}

} // verus!
