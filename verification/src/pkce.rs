//! Authorization codes and PKCE (RFC 7636).

use vstd::prelude::*;

use crate::codec::{base64url_nopad, base64url_nopad_spec, sha256, sha256_spec};
use crate::text::{push_char, str_eq};

verus! {

/// `b` is allowed in a PKCE verifier or challenge (RFC 7636 §4.1): an ASCII
/// letter or digit, `-`, `.`, `_` or `~`.
pub open spec fn is_pkce_byte(b: u8) -> bool {
    (0x30 <= b <= 0x39) || (0x41 <= b <= 0x5a) || (0x61 <= b <= 0x7a) || b == 0x2d || b == 0x2e
        || b == 0x5f || b == 0x7e
}

/// Every byte of `bytes` is allowed in a PKCE verifier.
pub open spec fn pkce_charset(bytes: Seq<u8>) -> bool {
    forall|i: int| 0 <= i < bytes.len() ==> is_pkce_byte(#[trigger] bytes[i])
}

/// Every byte of `s` is allowed in a PKCE verifier or challenge.
pub fn is_valid_pkce_charset(s: &str) -> (r: bool)
    ensures
        r == pkce_charset(vstd::utf8::encode_utf8(s@)),
{
    let bytes = s.as_bytes();
    let mut i: usize = 0;
    while i < bytes.len()
        invariant
            bytes@ == vstd::utf8::encode_utf8(s@),
            0 <= i <= bytes@.len(),
            forall|k: int| 0 <= k < i ==> is_pkce_byte(#[trigger] bytes@[k]),
        decreases bytes.len() - i,
    {
        let b = bytes[i];
        let ok = (0x30 <= b && b <= 0x39) || (0x41 <= b && b <= 0x5a) || (0x61 <= b && b <= 0x7a)
            || b == 0x2d || b == 0x2e || b == 0x5f || b == 0x7e;
        if !ok {
            return false;
        }
        i = i + 1;
    }
    true
}

/// The PKCE check of a token request (RFC 7636 §4.6): the verifier is 43 to
/// 128 bytes of the allowed characters, the method is S256, and the challenge
/// is the unpadded base64url of the verifier's SHA-256 digest.
pub open spec fn pkce_matches(challenge: Seq<char>, verifier: Seq<char>, method: Seq<char>) -> bool {
    let vb = vstd::utf8::encode_utf8(verifier);
    &&& 43 <= vb.len() <= 128
    &&& pkce_charset(vb)
    &&& method == "S256"@
    &&& challenge == base64url_nopad_spec(sha256_spec(vb))
}

/// Checks a code verifier against the challenge and method recorded with the
/// grant.
pub fn validate_pkce(challenge: &str, verifier: &str, method: &str) -> (r: bool)
    ensures
        r == pkce_matches(challenge@, verifier@, method@),
{
    let vb = verifier.as_bytes();
    if vb.len() < 43 || vb.len() > 128 {
        return false;
    }
    if !is_valid_pkce_charset(verifier) {
        return false;
    }
    if !str_eq(method, "S256") {
        return false;
    }
    let digest = sha256(vb);
    let encoded = base64url_nopad(digest.as_slice());
    str_eq(challenge, encoded.as_str())
}

/// Calls `rand::random_range` over `0..bound`. Claims only that the result
/// lies in the range; which value comes is left to chance.
#[verifier::external_body]
fn random_below(bound: u8) -> (r: u8)
    requires
        bound > 0,
    ensures
        r < bound,
{
    rand::random_range(0..bound)
}

/// The character of an authorization code that index `idx` (below 62)
/// stands for: lower-case letters, then upper-case letters, then digits.
pub open spec fn code_char(idx: u8) -> char {
    if idx <= 25 {
        (0x61 + idx) as char
    } else if idx <= 51 {
        (0x41 + (idx - 26)) as char
    } else {
        (0x30 + (idx - 52)) as char
    }
}

/// `c` is an ASCII letter or digit.
pub open spec fn is_code_char(c: char) -> bool {
    ('a' <= c <= 'z') || ('A' <= c <= 'Z') || ('0' <= c <= '9')
}

fn code_char_of(idx: u8) -> (c: char)
    requires
        idx < 62,
    ensures
        c == code_char(idx),
        is_code_char(c),
{
    if idx <= 25 {
        (0x61u8 + idx) as char
    } else if idx <= 51 {
        (0x41u8 + (idx - 26)) as char
    } else {
        (0x30u8 + (idx - 52)) as char
    }
}

/// A fresh authorization code: 32 characters drawn at random from the ASCII
/// letters and digits.
pub fn generate_code() -> (r: String)
    ensures
        r@.len() == 32,
        forall|i: int| 0 <= i < 32 ==> is_code_char(#[trigger] r@[i]),
        vstd::utf8::encode_utf8(r@).len() == 32,
{
    let mut code = String::new();
    let mut n: usize = 0;
    while n < 32
        invariant
            0 <= n <= 32,
            code@.len() == n,
            forall|i: int| 0 <= i < n ==> is_code_char(#[trigger] code@[i]),
        decreases 32 - n,
    {
        let idx = random_below(62);
        let c = code_char_of(idx);
        push_char(&mut code, c);
        n = n + 1;
    }
    proof {
        assert(vstd::utf8::is_ascii_chars(code@));
        vstd::utf8::is_ascii_chars_encode_utf8(code@);
    }
    code
}

} // verus!
