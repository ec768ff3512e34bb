//! The claims of the tokens the server issues (RFC 9068) and the key id it
//! publishes (RFC 7638).

use vstd::prelude::*;
use vstd::string::{StrSliceExecFns, StringExecFns};

use ed25519_dalek::pkcs8::DecodePrivateKey;

use crate::clock::{clock_range, clock_seconds, now_seconds};
use crate::codec::{base64url_nopad, base64url_nopad_spec, sha256, sha256_spec};
use crate::oauth_errors::JwtError;
use crate::scope::OAUTH_CLIENT_ID;
use crate::text::str_eq;

verus! {

/// Lifetime of an access token, in seconds: one day.
pub const ACCESS_TOKEN_LIFETIME: i64 = 86400;

/// Lifetime of a refresh token, in seconds: ten days.
pub const REFRESH_TOKEN_LIFETIME: i64 = 864000;

/// The claims of an access token (RFC 9068 §2.2). `aud` names the resource
/// server; the OAuth client is carried in `client_id`.
#[derive(Debug, Clone)]
pub struct Claims {
    pub iss: String,
    pub aud: String,
    pub sub: u128,
    pub client_id: u128,
    pub jti: u128,
    pub iat: i64,
    pub exp: i64,
    /// Space-separated scope list, when the grant carried one.
    pub scope: Option<String>,
}

/// The claims of a refresh token: `aud` is the client it was issued to and
/// `sub` the user; `scope` is copied onto every access token minted from it.
#[derive(Debug, Clone)]
pub struct RefreshClaims {
    pub iss: String,
    pub aud: u128,
    pub sub: u128,
    pub exp: i64,
    pub iat: i64,
    pub jti: u128,
    pub scope: Option<String>,
}

/// `s` with every trailing `/` removed.
pub open spec fn trim_trailing_slashes(s: Seq<char>) -> Seq<char>
    decreases s.len(),
{
    if s.len() > 0 && s.last() == '/' {
        trim_trailing_slashes(s.drop_last())
    } else {
        s
    }
}

/// The audience of access tokens: the API under the server's origin.
pub open spec fn resource_audience_spec(origin: Seq<char>) -> Seq<char> {
    trim_trailing_slashes(origin) + "/api"@
}

proof fn lemma_trim(s: Seq<char>, k: int)
    requires
        0 <= k <= s.len(),
        forall|i: int| k <= i < s.len() ==> s[i] == '/',
        k == 0 || s[k - 1] != '/',
    ensures
        trim_trailing_slashes(s) == s.take(k),
    decreases s.len(),
{
    if s.len() > k {
        assert(s.drop_last().take(k) =~= s.take(k));
        lemma_trim(s.drop_last(), k);
    } else {
        assert(s.take(k) =~= s);
    }
}

/// The audience of access tokens for the server at `origin`: the origin
/// without trailing slashes, followed by `/api`.
pub fn resource_audience(origin: &str) -> (r: String)
    ensures
        r@ == resource_audience_spec(origin@),
{
    let mut k = origin.unicode_len();
    while k > 0 && origin.get_char(k - 1) == '/'
        invariant
            0 <= k <= origin@.len(),
            forall|i: int| k <= i < origin@.len() ==> origin@[i] == '/',
        decreases k,
    {
        k = k - 1;
    }
    proof {
        lemma_trim(origin@, k as int);
    }
    let mut r = origin.substring_char(0, k).to_owned();
    r.append("/api");
    r
}

/// The claims of an access token for `user_id`, issued by `iss` to
/// `client_id` at `now`, valid for a day.
pub fn access_claims(
    iss: &str,
    user_id: u128,
    client_id: u128,
    jti: u128,
    now: i64,
    scope: Option<String>,
) -> (c: Claims)
    requires
        now <= i64::MAX - ACCESS_TOKEN_LIFETIME,
    ensures
        c.iss@ == iss@,
        c.aud@ == resource_audience_spec(iss@),
        c.sub == user_id,
        c.client_id == client_id,
        c.jti == jti,
        c.iat == now,
        c.exp == now + ACCESS_TOKEN_LIFETIME,
        c.scope == scope,
{
    Claims {
        iss: iss.to_owned(),
        aud: resource_audience(iss),
        sub: user_id,
        client_id,
        jti,
        iat: now,
        exp: now + ACCESS_TOKEN_LIFETIME,
        scope,
    }
}

/// The claims of a refresh token for `user_id`, issued by `iss` to
/// `client_id` at `now`, valid for ten days.
pub fn refresh_claims(
    iss: &str,
    client_id: u128,
    user_id: u128,
    jti: u128,
    now: i64,
    scope: Option<String>,
) -> (c: RefreshClaims)
    requires
        now <= i64::MAX - REFRESH_TOKEN_LIFETIME,
    ensures
        c.iss@ == iss@,
        c.aud == client_id,
        c.sub == user_id,
        c.jti == jti,
        c.iat == now,
        c.exp == now + REFRESH_TOKEN_LIFETIME,
        c.scope == scope,
{
    RefreshClaims {
        iss: iss.to_owned(),
        aud: client_id,
        sub: user_id,
        exp: now + REFRESH_TOKEN_LIFETIME,
        iat: now,
        jti,
        scope,
    }
}

/// The canonical JWK of an Ed25519 public key whose base64url form is `x`
/// (RFC 7638 §3.2: members in lexical order, no whitespace).
pub open spec fn canonical_jwk(x: Seq<char>) -> Seq<char> {
    "{\"crv\":\"Ed25519\",\"kty\":\"OKP\",\"x\":\""@ + x + "\"}"@
}

/// The RFC 7638 thumbprint of an Ed25519 public key.
pub open spec fn jwk_thumbprint_spec(public_key: Seq<u8>) -> Seq<char> {
    base64url_nopad_spec(
        sha256_spec(vstd::utf8::encode_utf8(canonical_jwk(base64url_nopad_spec(public_key)))),
    )
}

/// The key id published for an Ed25519 public key: its RFC 7638 thumbprint.
pub fn compute_jwk_thumbprint(public_key_bytes: &[u8; 32]) -> (r: String)
    ensures
        r@ == jwk_thumbprint_spec(public_key_bytes@),
{
    let x = base64url_nopad(public_key_bytes.as_slice());
    let mut canonical = String::from_str("{\"crv\":\"Ed25519\",\"kty\":\"OKP\",\"x\":\"");
    canonical.append(x.as_str());
    canonical.append("\"}");
    let bytes = canonical.as_str().as_bytes();
    let digest = sha256(bytes);
    base64url_nopad(digest.as_slice())
}

/// The endpoints advertised in the authorization server metadata (RFC 8414).
#[derive(Debug, Clone)]
pub struct ServerEndpoints {
    pub issuer: String,
    pub authorization_endpoint: String,
    pub token_endpoint: String,
    pub revocation_endpoint: String,
    pub jwks_uri: String,
}

/// The endpoints of the authorization server at `iss`.
pub fn server_endpoints(iss: &str) -> (r: ServerEndpoints)
    ensures
        r.issuer@ == iss@,
        r.authorization_endpoint@ == iss@ + "/auth/authorize"@,
        r.token_endpoint@ == iss@ + "/auth/token"@,
        r.revocation_endpoint@ == iss@ + "/auth/revoke"@,
        r.jwks_uri@ == iss@ + "/.well-known/jwks.json"@,
{
    let mut authorization_endpoint = iss.to_owned();
    authorization_endpoint.append("/auth/authorize");
    let mut token_endpoint = iss.to_owned();
    token_endpoint.append("/auth/token");
    let mut revocation_endpoint = iss.to_owned();
    revocation_endpoint.append("/auth/revoke");
    let mut jwks_uri = iss.to_owned();
    jwks_uri.append("/.well-known/jwks.json");
    ServerEndpoints {
        issuer: iss.to_owned(),
        authorization_endpoint,
        token_endpoint,
        revocation_endpoint,
        jwks_uri,
    }
}

/// One key of the published key set (RFC 7517): the Ed25519 signing key.
#[derive(Debug, Clone)]
pub struct Jwk {
    pub kty: String,
    pub crv: String,
    /// The public key, base64url-encoded without padding.
    pub x: String,
    pub kid: String,
    /// The key's use: signatures.
    pub use_: String,
    pub alg: String,
}

/// The published form of the Ed25519 public key `public_key_bytes` under the
/// key id `kid`.
pub fn jwk_of(public_key_bytes: &[u8; 32], kid: &str) -> (r: Jwk)
    ensures
        r.kty@ == "OKP"@,
        r.crv@ == "Ed25519"@,
        r.x@ == base64url_nopad_spec(public_key_bytes@),
        r.kid@ == kid@,
        r.use_@ == "sig"@,
        r.alg@ == "EdDSA"@,
{
    Jwk {
        kty: String::from_str("OKP"),
        crv: String::from_str("Ed25519"),
        x: base64url_nopad(public_key_bytes.as_slice()),
        kid: kid.to_owned(),
        use_: String::from_str("sig"),
        alg: String::from_str("EdDSA"),
    }
}

/// How far past its expiry a token is still accepted, in seconds
/// (`jsonwebtoken`'s default leeway).
pub const EXPIRY_LEEWAY_SECS: i64 = 60;

/// Why the claims of an access token are refused at `now` (seconds since
/// the epoch) by the server whose origin is `iss`, checked in `jsonwebtoken`'s
/// order: an expiry that is no timestamp, an expiry past the leeway, another
/// issuer, another audience than the server's resource. None when accepted.
pub open spec fn access_claims_fault(c: Claims, iss: Seq<char>, now: int) -> Option<Seq<char>> {
    if c.exp < 0 {
        Some("Missing required claim: exp"@)
    } else if c.exp < now - EXPIRY_LEEWAY_SECS {
        Some("ExpiredSignature"@)
    } else if c.iss@ != iss {
        Some("InvalidIssuer"@)
    } else if c.aud@ != resource_audience_spec(iss) {
        Some("InvalidAudience"@)
    } else {
        None
    }
}

/// Why the claims of a refresh token are refused at `now` by the server
/// whose origin is `iss`: as for an access token, with the OAuth client as
/// the audience.
pub open spec fn refresh_claims_fault(c: RefreshClaims, iss: Seq<char>, now: int) -> Option<Seq<char>> {
    if c.exp < 0 {
        Some("Missing required claim: exp"@)
    } else if c.exp < now - EXPIRY_LEEWAY_SECS {
        Some("ExpiredSignature"@)
    } else if c.iss@ != iss {
        Some("InvalidIssuer"@)
    } else if c.aud != OAUTH_CLIENT_ID {
        Some("InvalidAudience"@)
    } else {
        None
    }
}

/// Law: the claims of a refresh token are accepted exactly when they were
/// issued by this server (`iss`), for the OAuth client, with an expiry that
/// is a timestamp no more than the leeway in the past. Claims from another
/// issuer are refused as `InvalidIssuer` unless their expiry already is.
pub proof fn law_refresh_claims_accepted_iff(c: RefreshClaims, iss: Seq<char>, now: int)
    ensures
        refresh_claims_fault(c, iss, now) is None <==> (c.iss@ == iss && c.aud == OAUTH_CLIENT_ID && 0
            <= c.exp && now <= c.exp + EXPIRY_LEEWAY_SECS),
        c.iss@ != iss && 0 <= c.exp && now <= c.exp + EXPIRY_LEEWAY_SECS ==> refresh_claims_fault(
            c,
            iss,
            now,
        ) == Some("InvalidIssuer"@),
        c.exp < 0 ==> refresh_claims_fault(c, iss, now) == Some("Missing required claim: exp"@),
        0 <= c.exp && c.exp + EXPIRY_LEEWAY_SECS < now ==> refresh_claims_fault(c, iss, now) == Some(
            "ExpiredSignature"@,
        ),
        c.iss@ == iss && 0 <= c.exp && now <= c.exp + EXPIRY_LEEWAY_SECS && c.aud != OAUTH_CLIENT_ID
            ==> refresh_claims_fault(c, iss, now) == Some("InvalidAudience"@),
{
}

/// Law: the claims of an access token are accepted exactly when they were
/// issued by this server (`iss`), for its resource (`iss` with `/api`), with
/// an expiry that is a timestamp no more than the leeway in the past. Claims
/// from another issuer are refused as `InvalidIssuer` unless their expiry
/// already is.
pub proof fn law_access_claims_accepted_iff(c: Claims, iss: Seq<char>, now: int)
    ensures
        access_claims_fault(c, iss, now) is None <==> (c.iss@ == iss && c.aud@ == resource_audience_spec(
            iss,
        ) && 0 <= c.exp && now <= c.exp + EXPIRY_LEEWAY_SECS),
        c.iss@ != iss && 0 <= c.exp && now <= c.exp + EXPIRY_LEEWAY_SECS ==> access_claims_fault(
            c,
            iss,
            now,
        ) == Some("InvalidIssuer"@),
        c.exp < 0 ==> access_claims_fault(c, iss, now) == Some("Missing required claim: exp"@),
        0 <= c.exp && c.exp + EXPIRY_LEEWAY_SECS < now ==> access_claims_fault(c, iss, now) == Some(
            "ExpiredSignature"@,
        ),
        c.iss@ == iss && 0 <= c.exp && now <= c.exp + EXPIRY_LEEWAY_SECS && c.aud@
            != resource_audience_spec(iss) ==> access_claims_fault(c, iss, now) == Some(
            "InvalidAudience"@,
        ),
{
}

/// `r` answers the refusal `fault`: success when there is none, else the
/// token failure with its message.
pub open spec fn answers_fault(r: Result<(), JwtError>, fault: Option<Seq<char>>) -> bool {
    match fault {
        None => r is Ok,
        Some(m) => r matches Err(JwtError::Jwt(e)) && e@ == m,
    }
}

fn claims_fault(m: &str) -> (r: Result<(), JwtError>)
    ensures
        r matches Err(JwtError::Jwt(e)) && e@ == m@,
{
    Err(JwtError::Jwt(String::from_str(m)))
}

/// Accepts the claims of a signed access token at `now` (seconds since the
/// epoch) for the server whose origin is `iss`, or refuses them with the
/// message of the first check that fails.
pub fn check_access_claims(c: &Claims, iss: &str, now: i64) -> (r: Result<(), JwtError>)
    ensures
        answers_fault(r, access_claims_fault(*c, iss@, now as int)),
        r is Ok <==> (c.iss@ == iss@ && c.aud@ == resource_audience_spec(iss@) && 0 <= c.exp && now
            <= c.exp + EXPIRY_LEEWAY_SECS),
{
    proof {
        law_access_claims_accepted_iff(*c, iss@, now as int);
    }
    if c.exp < 0 {
        return claims_fault("Missing required claim: exp");
    }
    if (c.exp as i128) < (now as i128) - (EXPIRY_LEEWAY_SECS as i128) {
        return claims_fault("ExpiredSignature");
    }
    if !str_eq(c.iss.as_str(), iss) {
        return claims_fault("InvalidIssuer");
    }
    let aud = resource_audience(iss);
    if !str_eq(c.aud.as_str(), aud.as_str()) {
        return claims_fault("InvalidAudience");
    }
    Ok(())
}

/// Accepts the claims of a signed refresh token at `now` for the server
/// whose origin is `iss`, or refuses them with the message of the first
/// check that fails.
pub fn check_refresh_claims(c: &RefreshClaims, iss: &str, now: i64) -> (r: Result<(), JwtError>)
    ensures
        answers_fault(r, refresh_claims_fault(*c, iss@, now as int)),
        r is Ok <==> (c.iss@ == iss@ && c.aud == OAUTH_CLIENT_ID && 0 <= c.exp && now <= c.exp
            + EXPIRY_LEEWAY_SECS),
{
    proof {
        law_refresh_claims_accepted_iff(*c, iss@, now as int);
    }
    if c.exp < 0 {
        return claims_fault("Missing required claim: exp");
    }
    if (c.exp as i128) < (now as i128) - (EXPIRY_LEEWAY_SECS as i128) {
        return claims_fault("ExpiredSignature");
    }
    if !str_eq(c.iss.as_str(), iss) {
        return claims_fault("InvalidIssuer");
    }
    if c.aud != OAUTH_CLIENT_ID {
        return claims_fault("InvalidAudience");
    }
    Ok(())
}

/// `check_access_claims` at the present moment by the machine's clock.
pub fn check_access_claims_now(c: &Claims, iss: &str) -> (r: Result<(), JwtError>)
    ensures
        exists|t: i128| clock_range(t) && answers_fault(r, access_claims_fault(*c, iss@, clock_seconds(t as int))),
{
    let now = now_seconds();
    check_access_claims(c, iss, now)
}

/// `check_refresh_claims` at the present moment by the machine's clock.
pub fn check_refresh_claims_now(c: &RefreshClaims, iss: &str) -> (r: Result<(), JwtError>)
    ensures
        exists|t: i128| clock_range(t) && answers_fault(r, refresh_claims_fault(*c, iss@, clock_seconds(t as int))),
{
    let now = now_seconds();
    check_refresh_claims(c, iss, now)
}

/// The public key of the Ed25519 signing key that `ed25519_dalek` reads from
/// the PKCS#8 PEM text `pem`, or the message of the error it refuses the
/// text with.
pub uninterp spec fn ed25519_public_key_spec(pem: Seq<char>) -> Result<Seq<u8>, Seq<char>>;

/// Calls `ed25519_dalek::SigningKey::from_pkcs8_pem` and takes the bytes of
/// the key's `verifying_key`. Claims that the result, or the error's
/// message, is the one named by `ed25519_public_key_spec`.
#[verifier::external_body]
fn ed25519_public_key(pem: &str) -> (r: Result<[u8; 32], String>)
    ensures
        match ed25519_public_key_spec(pem@) {
            Ok(k) => r matches Ok(b) && b@ == k,
            Err(m) => r matches Err(e) && e@ == m,
        },
{
    match ed25519_dalek::SigningKey::from_pkcs8_pem(pem) {
        Ok(k) => Ok(k.verifying_key().to_bytes()),
        Err(e) => Err(e.to_string()),
    }
}

/// The public half of the server's signing key, read from its PKCS#8 PEM
/// text, and the id it is published under: its RFC 7638 thumbprint. A text
/// that is no Ed25519 private key is refused with the reason.
pub fn public_key_of_pem(pem: &str) -> (r: Result<([u8; 32], String), JwtError>)
    ensures
        match ed25519_public_key_spec(pem@) {
            Ok(k) => r matches Ok((b, kid)) && b@ == k && kid@ == jwk_thumbprint_spec(k),
            Err(d) => r matches Err(JwtError::KeyLoad(m)) && m@ == "invalid PKCS#8 Ed25519 PEM: "@ + d,
        },
{
    match ed25519_public_key(pem) {
        Ok(bytes) => {
            let kid = compute_jwk_thumbprint(&bytes);
            Ok((bytes, kid))
        },
        Err(reason) => {
            let mut m = String::from_str("invalid PKCS#8 Ed25519 PEM: ");
            m.append(reason.as_str());
            Err(JwtError::KeyLoad(m))
        },
    }
}

} // verus!
