//! Hashing and base64 coding, done by the `sha2` and `base64` crates.

use vstd::prelude::*;
use vstd::arithmetic::power2::pow2;

use base64::Engine;
use sha2::Digest;

verus! {

/// The SHA-256 digest of `data`, as `sha2` computes it.
pub uninterp spec fn sha256_spec(data: Seq<u8>) -> Seq<u8>;

/// The unpadded base64url encoding (RFC 4648 §5) of `data`, as `base64`'s
/// `URL_SAFE_NO_PAD` engine computes it.
pub uninterp spec fn base64url_nopad_spec(data: Seq<u8>) -> Seq<char>;

/// The padded base64url encoding of `data`, as `base64`'s `URL_SAFE` engine
/// computes it.
pub uninterp spec fn base64url_padded_spec(data: Seq<u8>) -> Seq<char>;

/// The bytes that `base64`'s `URL_SAFE` engine decodes `text` to, or none
/// when it refuses the text.
pub uninterp spec fn base64url_padded_decode_spec(text: Seq<u8>) -> Option<Seq<u8>>;

/// What `base64`'s `URL_SAFE_NO_PAD` engine decodes `text` to: the bytes, or
/// the message of the error it refuses the text with.
pub uninterp spec fn base64url_nopad_decode_spec(text: Seq<u8>) -> Result<Seq<u8>, Seq<char>>;

/// The instant, in nanoseconds since the Unix epoch, that `time` parses the
/// RFC 3339 text `text` to, or none when it refuses the text.
pub uninterp spec fn rfc3339_parse_spec(text: Seq<char>) -> Option<i128>;

/// The RFC 3339 text that `time` formats the UTC instant `nanos` (in
/// nanoseconds since the Unix epoch) to, or none when the instant lies
/// outside what it can represent or format.
pub uninterp spec fn rfc3339_format_spec(nanos: i128) -> Option<Seq<char>>;

/// The UUID that `uuid` parses `text` to, as an integer, or none when it
/// refuses the text.
pub uninterp spec fn uuid_parse_spec(text: Seq<char>) -> Option<u128>;

/// The lower-case hexadecimal digit of value `n`, for `n` in `0..16`.
pub open spec fn hex_digit(n: int) -> char {
    if n < 10 {
        (48 + n) as char
    } else {
        (87 + n) as char
    }
}

/// The `k`-th hexadecimal digit of `id`, counting from the most significant
/// of its 32.
pub open spec fn uuid_nibble(id: u128, k: int) -> int {
    (id as int / pow2((4 * (31 - k)) as nat) as int) % 16
}

/// Which of the 32 digits stands at position `i` of the hyphenated text.
pub open spec fn uuid_digit_at(i: int) -> int {
    if i < 8 {
        i
    } else if i < 13 {
        i - 1
    } else if i < 18 {
        i - 2
    } else if i < 23 {
        i - 3
    } else {
        i - 4
    }
}

/// The hyphenated lower-case text of the UUID `id` that `uuid` displays: its
/// 32 hexadecimal digits, most significant first, in groups of 8, 4, 4, 4
/// and 12 separated by hyphens.
pub open spec fn uuid_text_spec(id: u128) -> Seq<char> {
    Seq::new(
        36,
        |i: int|
            if i == 8 || i == 13 || i == 18 || i == 23 {
                '-'
            } else {
                hex_digit(uuid_nibble(id, uuid_digit_at(i)))
            },
    )
}

proof fn lemma_uuid_text_chars(id: u128)
    ensures
        uuid_text_spec(id).len() == 36,
        forall|i: int| 0 <= i < 36 ==> is_uuid_text_char(#[trigger] uuid_text_spec(id)[i]),
{
    assert forall|i: int| 0 <= i < 36 implies is_uuid_text_char(#[trigger] uuid_text_spec(id)[i]) by {
        if !(i == 8 || i == 13 || i == 18 || i == 23) {
            let k = uuid_digit_at(i);
            let p = pow2((4 * (31 - k)) as nat) as int;
            vstd::arithmetic::power2::lemma_pow2_pos((4 * (31 - k)) as nat);
            let q = id as int / p;
            assert(q >= 0) by (nonlinear_arith)
                requires p > 0, id as int >= 0, q == id as int / p;
            let n = q % 16;
            assert(0 <= n < 16);
        }
    }
}

/// `c` may appear in RFC 3339 text as `time` writes it: a digit, `-`, `T`,
/// `:`, `.`, `Z` or `+`.
pub open spec fn is_rfc3339_char(c: char) -> bool {
    ('0' <= c <= '9') || c == '-' || c == 'T' || c == ':' || c == '.' || c == 'Z' || c == '+'
}

/// The unpadded base64url text `text` decodes to the bytes `data`.
pub open spec fn nopad_decodes_to(text: Seq<char>, data: Seq<u8>) -> bool {
    base64url_nopad_decode_spec(vstd::utf8::encode_utf8(text)) == Ok::<Seq<u8>, Seq<char>>(data)
}

/// `c` belongs to the URL-safe base64 alphabet (RFC 4648 §5).
pub open spec fn is_base64url_char(c: char) -> bool {
    ('A' <= c <= 'Z') || ('a' <= c <= 'z') || ('0' <= c <= '9') || c == '-' || c == '_'
}

/// `c` is a lower-case hexadecimal digit or a hyphen.
pub open spec fn is_uuid_text_char(c: char) -> bool {
    ('0' <= c <= '9') || ('a' <= c <= 'f') || c == '-'
}

/// Calls `time::OffsetDateTime::parse` with the RFC 3339 format and reads the
/// instant back as nanoseconds since the epoch. Claims that the result is the
/// one named by `rfc3339_parse_spec`; the crate's error becomes its message.
#[verifier::external_body]
pub(crate) fn rfc3339_parse(text: &str) -> (r: Result<i128, String>)
    ensures
        match rfc3339_parse_spec(text@) {
            Some(t) => r == Ok::<i128, String>(t),
            None => r is Err,
        },
{
    match time::OffsetDateTime::parse(text, &time::format_description::well_known::Rfc3339) {
        Ok(t) => Ok(t.unix_timestamp_nanos()),
        Err(e) => Err(e.to_string()),
    }
}

/// Builds the UTC instant with `time::OffsetDateTime::from_unix_timestamp_nanos`
/// and calls its `format` with the RFC 3339 format. Claims that the result is
/// the one named by `rfc3339_format_spec`, that the text uses only the
/// characters RFC 3339 allows for a UTC time, and that `time` parses it back
/// to the same instant. The crate's error becomes its message.
#[verifier::external_body]
pub(crate) fn rfc3339_format(nanos: i128) -> (r: Result<String, String>)
    ensures
        match rfc3339_format_spec(nanos) {
            Some(text) => r matches Ok(s) && s@ == text,
            None => r is Err,
        },
        r matches Ok(s) ==> forall|i: int| 0 <= i < s@.len() ==> is_rfc3339_char(#[trigger] s@[i]),
        r matches Ok(s) ==> s@.len() <= 35,
        r matches Ok(s) ==> rfc3339_parse_spec(s@) == Some(nanos),
{
    match time::OffsetDateTime::from_unix_timestamp_nanos(nanos) {
        Ok(t) => match t.format(&time::format_description::well_known::Rfc3339) {
            Ok(s) => Ok(s),
            Err(e) => Err(e.to_string()),
        },
        Err(e) => Err(e.to_string()),
    }
}

/// Calls `uuid::Uuid::parse_str` and reads the UUID as an integer. Claims
/// that the result is the one named by `uuid_parse_spec`; the crate's error
/// becomes its message.
#[verifier::external_body]
pub(crate) fn uuid_parse(text: &str) -> (r: Result<u128, String>)
    ensures
        match uuid_parse_spec(text@) {
            Some(id) => r == Ok::<u128, String>(id),
            None => r is Err,
        },
{
    match uuid::Uuid::parse_str(text) {
        Ok(u) => Ok(u.as_u128()),
        Err(e) => Err(e.to_string()),
    }
}

/// Builds the UUID with `uuid::Uuid::from_u128` and displays it. Claims that
/// the text is `uuid_text_spec` of it, which `uuid` parses back to the same
/// UUID.
#[verifier::external_body]
fn uuid_display(id: u128) -> (r: String)
    ensures
        r@ == uuid_text_spec(id),
        uuid_parse_spec(r@) == Some(id),
{
    uuid::Uuid::from_u128(id).to_string()
}

/// The hyphenated lower-case text of the UUID `id`: 36 hexadecimal digits and
/// hyphens, which parse back to the same UUID.
pub(crate) fn uuid_text(id: u128) -> (r: String)
    ensures
        r@ == uuid_text_spec(id),
        r@.len() == 36,
        forall|i: int| 0 <= i < r@.len() ==> is_uuid_text_char(#[trigger] r@[i]),
        uuid_parse_spec(r@) == Some(id),
{
    proof {
        lemma_uuid_text_chars(id);
    }
    uuid_display(id)
}

/// Calls `String::from_utf8`. Claims what std documents: the bytes are
/// accepted exactly when they are valid UTF-8, and then decode to the string.
#[verifier::external_body]
pub(crate) fn utf8_decode(bytes: Vec<u8>) -> (r: Result<String, String>)
    ensures
        if vstd::utf8::valid_utf8(bytes@) {
            r matches Ok(s) && s@ == vstd::utf8::decode_utf8(bytes@)
        } else {
            r is Err
        },
{
    match String::from_utf8(bytes) {
        Ok(s) => Ok(s),
        Err(e) => Err(e.to_string()),
    }
}

/// Calls `sha2::Sha256::digest`. Claims that the result is the digest named
/// by `sha256_spec` and is 32 bytes long, as the crate's output type fixes.
#[verifier::external_body]
pub(crate) fn sha256(data: &[u8]) -> (r: Vec<u8>)
    ensures
        r@ == sha256_spec(data@),
        r@.len() == 32,
{
    sha2::Sha256::digest(data).to_vec()
}

/// Calls `Engine::encode` on `base64::prelude::BASE64_URL_SAFE_NO_PAD`.
/// Claims that the result is the encoding named by `base64url_nopad_spec`,
/// written in the URL-safe alphabet, and that the same engine decodes it
/// back to the input.
/// The crate panics when the encoded length overflows `usize`, which the
/// bound on the input rules out.
#[verifier::external_body]
pub(crate) fn base64url_nopad(data: &[u8]) -> (r: String)
    requires
        data@.len() <= usize::MAX / 2,
    ensures
        r@ == base64url_nopad_spec(data@),
        forall|i: int| 0 <= i < r@.len() ==> is_base64url_char(#[trigger] r@[i]),
        nopad_decodes_to(r@, data@),
{
    base64::prelude::BASE64_URL_SAFE_NO_PAD.encode(data)
}

/// Calls `Engine::encode` on `base64::prelude::BASE64_URL_SAFE`. Claims that
/// the result is the encoding named by `base64url_padded_spec`, under the same
/// bound on the input as the unpadded encoding, and that the same engine
/// decodes the encoded text back to the input.
#[verifier::external_body]
pub(crate) fn base64url_padded(data: &[u8]) -> (r: String)
    requires
        data@.len() <= usize::MAX / 2,
    ensures
        r@ == base64url_padded_spec(data@),
        base64url_padded_decode_spec(vstd::utf8::encode_utf8(r@)) == Some(data@),
{
    base64::prelude::BASE64_URL_SAFE.encode(data)
}

/// Calls `Engine::decode` on `base64::prelude::BASE64_URL_SAFE`. Claims that
/// the result is the decoding named by `base64url_padded_decode_spec`; the
/// crate's error becomes its message.
#[verifier::external_body]
pub(crate) fn base64url_padded_decode(text: &[u8]) -> (r: Result<Vec<u8>, String>)
    ensures
        match base64url_padded_decode_spec(text@) {
            Some(bytes) => r matches Ok(v) && v@ == bytes,
            None => r is Err,
        },
{
    match base64::prelude::BASE64_URL_SAFE.decode(text) {
        Ok(v) => Ok(v),
        Err(e) => Err(e.to_string()),
    }
}

/// Calls `Engine::decode` on `base64::prelude::BASE64_URL_SAFE_NO_PAD`.
/// Claims that the result, bytes or the error's message, is the one named by
/// `base64url_nopad_decode_spec`.
#[verifier::external_body]
pub(crate) fn base64url_nopad_decode(text: &[u8]) -> (r: Result<Vec<u8>, String>)
    ensures
        match base64url_nopad_decode_spec(text@) {
            Ok(bytes) => r matches Ok(v) && v@ == bytes,
            Err(m) => r matches Err(e) && e@ == m,
        },
{
    match base64::prelude::BASE64_URL_SAFE_NO_PAD.decode(text) {
        Ok(v) => Ok(v),
        Err(e) => Err(e.to_string()),
    }
}

} // verus!
