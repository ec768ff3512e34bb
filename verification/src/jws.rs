//! Compact JWS tokens (RFC 7515 §7.1) signed with Ed25519: a token is split
//! into header, payload and signature, the header is read, and the signature
//! over `header.payload` is checked. `base64` and `serde_json` decode the
//! parts and `jsonwebtoken` checks the signature; the order of the steps and
//! the answer to each failure are this module's.

use vstd::prelude::*;
use vstd::string::{StrSliceExecFns, StringExecFns};

use crate::authorize::opt_view;
use crate::codec::{
    base64url_nopad, base64url_nopad_decode, base64url_nopad_decode_spec, base64url_nopad_spec,
    is_base64url_char, nopad_decodes_to,
};
use crate::jwt::ed25519_public_key_spec;
use crate::oauth_errors::JwtError;
use crate::text::str_eq;

verus! {

/// The header of a token: the name of its signing algorithm, its type and
/// the id of the key it names.
#[derive(Debug, Clone)]
pub struct JwsHeader {
    pub alg: String,
    pub typ: Option<String>,
    pub kid: Option<String>,
}

/// What a header says: algorithm name, type and key id.
pub open spec fn header_view(h: JwsHeader) -> (Seq<char>, Option<Seq<char>>, Option<Seq<char>>) {
    (h.alg@, opt_view(h.typ), opt_view(h.kid))
}

/// What `serde_json` reads the JSON text `json` as, taken as a
/// `jsonwebtoken::Header`: the name of its algorithm, its type and key id,
/// or the message of the error it refuses the text with.
pub uninterp spec fn jws_header_spec(json: Seq<u8>) -> Result<
    (Seq<char>, Option<Seq<char>>, Option<Seq<char>>),
    Seq<char>,
>;

/// Calls `serde_json::from_slice` into a `jsonwebtoken::Header` and keeps its
/// algorithm (by the name of its variant), type and key id. Claims that the
/// result, or the error's message, is the one named by `jws_header_spec`.
#[verifier::external_body]
fn parse_jws_header(json: &[u8]) -> (r: Result<JwsHeader, String>)
    ensures
        match jws_header_spec(json@) {
            Ok(h) => r matches Ok(v) && header_view(v) == h,
            Err(m) => r matches Err(e) && e@ == m,
        },
{
    match serde_json::from_slice::<jsonwebtoken::Header>(json) {
        Ok(h) => Ok(JwsHeader { alg: format!("{:?}", h.alg), typ: h.typ, kid: h.kid }),
        Err(e) => Err(e.to_string()),
    }
}

/// Whether `jsonwebtoken::crypto::verify` accepts `signature` (base64url) as
/// an EdDSA signature of `message` under the raw Ed25519 public key
/// `public_key`, or the message of its error.
pub uninterp spec fn eddsa_verify_spec(message: Seq<u8>, signature: Seq<char>, public_key: Seq<u8>) -> Result<
    bool,
    Seq<char>,
>;

/// Makes the key with `jsonwebtoken::DecodingKey::from_ed_der` and calls
/// `jsonwebtoken::crypto::verify` with `Algorithm::EdDSA`. Claims that the
/// verdict, or the error's message, is the one named by `eddsa_verify_spec`.
#[verifier::external_body]
fn eddsa_verify(message: &[u8], signature: &str, public_key: &[u8; 32]) -> (r: Result<bool, String>)
    ensures
        match eddsa_verify_spec(message@, signature@, public_key@) {
            Ok(b) => r == Ok::<bool, String>(b),
            Err(m) => r matches Err(e) && e@ == m,
        },
{
    let key = jsonwebtoken::DecodingKey::from_ed_der(public_key);
    match jsonwebtoken::crypto::verify(signature, message, &key, jsonwebtoken::Algorithm::EdDSA) {
        Ok(b) => Ok(b),
        Err(e) => Err(e.to_string()),
    }
}

/// The position of the last `.` in `s`, if any.
pub open spec fn last_dot(s: Seq<char>) -> Option<int>
    decreases s.len(),
{
    if s.len() == 0 {
        None
    } else if s.last() == '.' {
        Some(s.len() - 1)
    } else {
        last_dot(s.drop_last())
    }
}

proof fn lemma_last_dot_none(s: Seq<char>)
    requires
        forall|j: int| 0 <= j < s.len() ==> s[j] != '.',
    ensures
        last_dot(s) is None,
    decreases s.len(),
{
    if s.len() > 0 {
        assert forall|j: int| 0 <= j < s.drop_last().len() implies s.drop_last()[j] != '.' by {
            assert(s.drop_last()[j] == s[j]);
        }
        lemma_last_dot_none(s.drop_last());
    }
}

proof fn lemma_last_dot_at(s: Seq<char>, k: int)
    requires
        0 <= k < s.len(),
        s[k] == '.',
        forall|j: int| k < j < s.len() ==> s[j] != '.',
    ensures
        last_dot(s) == Some(k),
    decreases s.len(),
{
    if k < s.len() - 1 {
        assert forall|j: int| k < j < s.drop_last().len() implies s.drop_last()[j] != '.' by {
            assert(s.drop_last()[j] == s[j]);
        }
        assert(s.drop_last()[k] == s[k]);
        lemma_last_dot_at(s.drop_last(), k);
    }
}

/// The position of the last `.` in `s`, if any.
fn find_last_dot(s: &str) -> (r: Option<usize>)
    ensures
        match last_dot(s@) {
            Some(k) => r == Some(k as usize) && 0 <= k < s@.len(),
            None => r is None,
        },
{
    let n = s.unicode_len();
    let mut k: usize = n;
    while k > 0 && s.get_char(k - 1) != '.'
        invariant
            n == s@.len(),
            k <= n,
            forall|j: int| k <= j < n ==> s@[j] != '.',
        decreases k,
    {
        k = k - 1;
    }
    if k == 0 {
        proof {
            lemma_last_dot_none(s@);
        }
        None
    } else {
        proof {
            lemma_last_dot_at(s@, k - 1);
        }
        Some(k - 1)
    }
}

/// What checking the compact token `token` against the Ed25519 public key
/// `public_key` comes to, step by step as `jsonwebtoken::decode` takes
/// them: the signature follows the last `.`, the payload the `.` before it,
/// and the header is everything before that. Either the header and the
/// decoded payload, or the message of the first step that fails.
pub open spec fn compact_token_outcome(token: Seq<char>, public_key: Seq<u8>) -> Result<
    ((Seq<char>, Option<Seq<char>>, Option<Seq<char>>), Seq<u8>),
    Seq<char>,
> {
    match last_dot(token) {
        None => Err("InvalidToken"@),
        Some(i) => {
            let message = token.take(i);
            let signature = token.skip(i + 1);
            match last_dot(message) {
                None => Err("InvalidToken"@),
                Some(j) => match base64url_nopad_decode_spec(vstd::utf8::encode_utf8(message.take(j))) {
                    Err(d) => Err("Base64 error: "@ + d),
                    Ok(hb) => match jws_header_spec(hb) {
                        Err(d) => Err("JSON error: "@ + d),
                        Ok(h) => if h.0 != "EdDSA"@ {
                            Err("InvalidAlgorithm"@)
                        } else {
                            match eddsa_verify_spec(vstd::utf8::encode_utf8(message), signature, public_key) {
                                Err(m) => Err(m),
                                Ok(false) => Err("InvalidSignature"@),
                                Ok(true) => match base64url_nopad_decode_spec(
                                    vstd::utf8::encode_utf8(message.skip(j + 1)),
                                ) {
                                    Err(d) => Err("Base64 error: "@ + d),
                                    Ok(p) => Ok((h, p)),
                                },
                            }
                        },
                    },
                },
            }
        },
    }
}

/// A token whose signature checked out: its header and its decoded payload,
/// the JSON of the claims.
#[derive(Debug, Clone)]
pub struct VerifiedToken {
    pub header: JwsHeader,
    pub payload: Vec<u8>,
}

/// A token failure with the message `m`.
fn token_fault(m: &str) -> (r: JwtError)
    ensures
        r matches JwtError::Jwt(s) && s@ == m@,
{
    JwtError::Jwt(String::from_str(m))
}

/// A token failure whose message is `prefix` followed by `detail`.
fn token_fault_with(prefix: &str, detail: String) -> (r: JwtError)
    ensures
        r matches JwtError::Jwt(s) && s@ == prefix@ + detail@,
{
    let mut s = String::from_str(prefix);
    s.append(detail.as_str());
    JwtError::Jwt(s)
}

/// Checks a compact JWS token signed with EdDSA under `public_key` and
/// decodes its payload. A token that does not split into three parts, whose
/// header is not base64url JSON, that names another algorithm, whose
/// signature does not check out, or whose payload is not base64url is
/// refused, with the message of the first failing step.
pub fn verify_compact_token(token: &str, public_key: &[u8; 32]) -> (r: Result<VerifiedToken, JwtError>)
    ensures
        match compact_token_outcome(token@, public_key@) {
            Ok((h, p)) => r matches Ok(v) && header_view(v.header) == h && v.payload@ == p,
            Err(m) => r matches Err(JwtError::Jwt(e)) && e@ == m,
        },
{
    let n = token.unicode_len();
    let i = match find_last_dot(token) {
        Some(i) => i,
        None => return Err(token_fault("InvalidToken")),
    };
    let message = token.substring_char(0, i);
    let signature = token.substring_char(i + 1, n);
    assert(message@ =~= token@.take(i as int));
    assert(signature@ =~= token@.skip(i as int + 1));
    let m = message.unicode_len();
    let j = match find_last_dot(message) {
        Some(j) => j,
        None => return Err(token_fault("InvalidToken")),
    };
    let header_text = message.substring_char(0, j);
    let payload_text = message.substring_char(j + 1, m);
    assert(header_text@ =~= message@.take(j as int));
    assert(payload_text@ =~= message@.skip(j as int + 1));
    let header_bytes = match base64url_nopad_decode(header_text.as_bytes()) {
        Ok(b) => b,
        Err(d) => return Err(token_fault_with("Base64 error: ", d)),
    };
    let header = match parse_jws_header(header_bytes.as_slice()) {
        Ok(h) => h,
        Err(d) => return Err(token_fault_with("JSON error: ", d)),
    };
    if !str_eq(header.alg.as_str(), "EdDSA") {
        return Err(token_fault("InvalidAlgorithm"));
    }
    match eddsa_verify(message.as_bytes(), signature, public_key) {
        Err(m) => return Err(JwtError::Jwt(m)),
        Ok(false) => return Err(token_fault("InvalidSignature")),
        Ok(true) => {},
    }
    let payload = match base64url_nopad_decode(payload_text.as_bytes()) {
        Ok(p) => p,
        Err(d) => return Err(token_fault_with("Base64 error: ", d)),
    };
    Ok(VerifiedToken { header, payload })
}

/// The JSON text `json` reads back as an EdDSA header with type `typ` and
/// key id `kid`.
pub open spec fn header_reads_as(json: Seq<u8>, typ: Seq<char>, kid: Seq<char>) -> bool {
    jws_header_spec(json) == Ok::<(Seq<char>, Option<Seq<char>>, Option<Seq<char>>), Seq<char>>(
        ("EdDSA"@, Some(typ), Some(kid)),
    )
}

/// The JSON that `serde_json` writes for a `jsonwebtoken::Header` of
/// algorithm EdDSA, type `typ` and key id `kid`.
pub uninterp spec fn jws_header_json_spec(typ: Seq<char>, kid: Seq<char>) -> Seq<u8>;

/// Makes `jsonwebtoken::Header::new(Algorithm::EdDSA)` with `typ` and `kid`
/// and writes it with `serde_json::to_vec`. Claims that the JSON is the one
/// named by `jws_header_json_spec`; that it reads back as the same header
/// (`Header` derives `Serialize` and `Deserialize` over the same fields, and
/// leaves out the fields it does not set); and that it is at most 64 bytes
/// beyond six per character of `typ` and `kid`, the longest escape
/// `serde_json` writes for a character. Writing a header cannot fail; the
/// arm that gives no JSON is never taken.
#[verifier::external_body]
fn jws_header_json(typ: &str, kid: &str) -> (r: Vec<u8>)
    ensures
        r@ == jws_header_json_spec(typ@, kid@),
        header_reads_as(r@, typ@, kid@),
        r@.len() <= 64 + 6 * (typ@.len() + kid@.len()),
{
    let mut h = jsonwebtoken::Header::new(jsonwebtoken::Algorithm::EdDSA);
    h.typ = Some(typ.to_string());
    h.kid = Some(kid.to_string());
    match serde_json::to_vec(&h) {
        Ok(v) => v,
        Err(_) => Vec::new(),
    }
}

/// The base64url signature that `jsonwebtoken::crypto::sign` makes of
/// `message` with EdDSA under the PKCS#8 PEM private key `pem`, or the
/// message of its error.
pub uninterp spec fn eddsa_sign_spec(message: Seq<u8>, pem: Seq<char>) -> Result<Seq<char>, Seq<char>>;

/// Makes the key with `jsonwebtoken::EncodingKey::from_ed_pem` and calls
/// `jsonwebtoken::crypto::sign` with `Algorithm::EdDSA`. Claims that the
/// signature, or the error's message, is the one named by `eddsa_sign_spec`;
/// that the signature is written in the URL-safe base64 alphabet; and that
/// it verifies (`eddsa_verify_spec`) under the public key of the same PEM key
/// (RFC 8032: both crates derive the key pair from the PEM's seed).
#[verifier::external_body]
fn eddsa_sign(message: &[u8], pem: &str) -> (r: Result<String, String>)
    ensures
        match eddsa_sign_spec(message@, pem@) {
            Ok(s) => r matches Ok(v) && v@ == s,
            Err(m) => r matches Err(e) && e@ == m,
        },
        r matches Ok(v) ==> forall|i: int| 0 <= i < v@.len() ==> is_base64url_char(#[trigger] v@[i]),
        r matches Ok(v) ==> (ed25519_public_key_spec(pem@) matches Ok(k) ==> eddsa_verify_spec(
            message@,
            v@,
            k,
        ) == Ok::<bool, Seq<char>>(true)),
{
    let key = match jsonwebtoken::EncodingKey::from_ed_pem(pem.as_bytes()) {
        Ok(k) => k,
        Err(e) => return Err(e.to_string()),
    };
    match jsonwebtoken::crypto::sign(message, &key, jsonwebtoken::Algorithm::EdDSA) {
        Ok(s) => Ok(s),
        Err(e) => Err(e.to_string()),
    }
}

/// The text a token signs: the base64url header and payload joined by `.`.
pub open spec fn signing_input(header_json: Seq<u8>, payload: Seq<u8>) -> Seq<char> {
    base64url_nopad_spec(header_json) + "."@ + base64url_nopad_spec(payload)
}

proof fn lemma_last_dot_join(a: Seq<char>, b: Seq<char>)
    requires
        forall|i: int| 0 <= i < b.len() ==> #[trigger] b[i] != '.',
    ensures
        last_dot(a + seq!['.'] + b) == Some(a.len() as int),
        (a + seq!['.'] + b).take(a.len() as int) == a,
        (a + seq!['.'] + b).skip(a.len() as int + 1) == b,
    decreases b.len(),
{
    let s = a + seq!['.'] + b;
    if b.len() == 0 {
        assert(s.last() == '.');
    } else {
        assert forall|i: int| 0 <= i < b.drop_last().len() implies #[trigger] b.drop_last()[i] != '.' by {
            assert(b.drop_last()[i] == b[i]);
        }
        lemma_last_dot_join(a, b.drop_last());
        assert(s.last() == b.last());
        assert(s.drop_last() =~= a + seq!['.'] + b.drop_last());
    }
    assert(s.take(a.len() as int) =~= a);
    assert(s.skip(a.len() as int + 1) =~= b);
}

/// Signs a compact JWS token of type `typ` for the key `kid` over `payload`
/// (the JSON of its claims) with the PKCS#8 PEM private key `pem`: the
/// header and payload in unpadded base64url, joined by `.`, then `.` and the
/// signature. A token so made is accepted by `verify_compact_token` under
/// the public key of the same PEM key, which gives back the header and the
/// payload.
pub fn sign_compact_token(typ: &str, kid: &str, payload: &[u8], pem: &str) -> (r: Result<String, JwtError>)
    requires
        typ@.len() + kid@.len() <= usize::MAX / 16,
        payload@.len() <= usize::MAX / 2,
    ensures
        match eddsa_sign_spec(
            vstd::utf8::encode_utf8(signing_input(jws_header_json_spec(typ@, kid@), payload@)),
            pem@,
        ) {
            Ok(sig) => r matches Ok(t) && t@ == signing_input(jws_header_json_spec(typ@, kid@), payload@)
                + "."@ + sig,
            Err(m) => r matches Err(JwtError::Jwt(e)) && e@ == m,
        },
        r matches Ok(t) ==> (ed25519_public_key_spec(pem@) matches Ok(k) ==> compact_token_outcome(t@, k)
            == Ok::<((Seq<char>, Option<Seq<char>>, Option<Seq<char>>), Seq<u8>), Seq<char>>(
            (("EdDSA"@, Some(typ@), Some(kid@)), payload@),
        )),
{
    let header = jws_header_json(typ, kid);
    let h = base64url_nopad(header.as_slice());
    let p = base64url_nopad(payload);
    let mut message = h.clone();
    message.append(".");
    message.append(p.as_str());
    proof {
        reveal_strlit(".");
        assert(message@ == signing_input(header@, payload@));
    }
    let sig = match eddsa_sign(message.as_str().as_bytes(), pem) {
        Ok(s) => s,
        Err(m) => return Err(JwtError::Jwt(m)),
    };
    let mut token = message.clone();
    token.append(".");
    token.append(sig.as_str());
    proof {
        assert(seq!['.'] == "."@);
        assert forall|i: int| 0 <= i < sig@.len() implies #[trigger] sig@[i] != '.' by {
            assert(is_base64url_char(sig@[i]));
        }
        assert forall|i: int| 0 <= i < p@.len() implies #[trigger] p@[i] != '.' by {
            assert(is_base64url_char(p@[i]));
        }
        lemma_last_dot_join(message@, sig@);
        lemma_last_dot_join(h@, p@);
        assert(token@ == message@ + seq!['.'] + sig@);
        assert(message@ == h@ + seq!['.'] + p@);
    }
    Ok(token)
}

/// Law: the claims of an access token are accepted, by the server that
/// issued them, from the moment of issue until a minute past their expiry.
pub proof fn law_issued_access_claims_accepted(c: crate::jwt::Claims, iss: Seq<char>, now: int)
    requires
        c.iss@ == iss,
        c.aud@ == crate::jwt::resource_audience_spec(iss),
        0 <= c.iat,
        c.exp == c.iat + crate::jwt::ACCESS_TOKEN_LIFETIME,
        now <= c.exp + crate::jwt::EXPIRY_LEEWAY_SECS,
    ensures
        crate::jwt::access_claims_fault(c, iss, now) is None,
{
}

} // verus!
