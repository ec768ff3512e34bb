//! The token endpoint (RFC 6749 §4.1.3 and §6): which requests are well
//! formed, and what an authorization code or a refresh token is exchanged for.
//! Codes are single-use and refresh tokens rotate; presenting either a second
//! time refuses the request and revokes every token of its family.

use vstd::prelude::*;
use vstd::string::{StrSliceExecFns, StringExecFns};

use crate::clock::{clock_range, now_nanos};
use crate::jwt::{Claims, RefreshClaims};
use crate::oauth_errors::{OAuthErrorType, OAuthTokenError};
use crate::pkce::{generate_code, is_code_char, pkce_matches, validate_pkce};
use crate::scope::{OAuthAuthorizeQuery, contains_scope, known_scopes, scopes_from_stored, Scope};
use crate::session::new_v7_id;
use crate::text::{str_eq, utf8_len, ws_tokens};

verus! {

/// A request to the token endpoint, by grant type.
#[allow(inconsistent_fields)]
#[derive(Debug, Clone)]
pub enum OAuthTokenRequest {
    AuthorizationCode { client_id: u128, code: String, code_verifier: String, redirect_uri: String },
    /// The client id is optional (RFC 6749 §6): the token's audience already
    /// names the client, and a client id that is sent must match it.
    RefreshToken { client_id: Option<u128>, refresh_token: String },
    /// Any other grant type.
    Unsupported,
}

/// Why a token request is refused before anything is looked up; none when it
/// is well formed.
pub open spec fn token_request_failure(req: OAuthTokenRequest) -> Option<OAuthErrorType> {
    match req {
        OAuthTokenRequest::AuthorizationCode { code, code_verifier, .. } => {
            if utf8_len(code_verifier@) < 43 || utf8_len(code_verifier@) > 128 {
                Some(OAuthErrorType::MalformedCodeVerifier)
            } else if utf8_len(code@) != 32 {
                Some(OAuthErrorType::MalformedCode)
            } else {
                None
            }
        },
        OAuthTokenRequest::RefreshToken { refresh_token, .. } => {
            if refresh_token@.len() == 0 {
                Some(OAuthErrorType::MalformedRefreshToken)
            } else {
                None
            }
        },
        OAuthTokenRequest::Unsupported => Some(OAuthErrorType::UnsupportedGrantType),
    }
}

impl OAuthTokenRequest {
    /// Checks the shape of the request: a code verifier of 43 to 128 bytes, a
    /// code of 32 bytes, a refresh token that is not empty, a supported grant.
    pub fn validate(&self) -> (r: Result<(), OAuthTokenError>)
        ensures
            match token_request_failure(*self) {
                None => r is Ok,
                Some(t) => r matches Err(e) && *e.error_type == t,
            },
    {
        match self {
            OAuthTokenRequest::AuthorizationCode { code, code_verifier, .. } => {
                let vlen = code_verifier.as_str().as_bytes().len();
                if vlen < 43 || vlen > 128 {
                    return Err(OAuthTokenError::error(OAuthErrorType::MalformedCodeVerifier));
                }
                if code.as_str().as_bytes().len() != 32 {
                    return Err(OAuthTokenError::error(OAuthErrorType::MalformedCode));
                }
                Ok(())
            },
            OAuthTokenRequest::RefreshToken { refresh_token, .. } => {
                if refresh_token.as_str().unicode_len() == 0 {
                    return Err(OAuthTokenError::error(OAuthErrorType::MalformedRefreshToken));
                }
                Ok(())
            },
            OAuthTokenRequest::Unsupported => Err(
                OAuthTokenError::error(OAuthErrorType::UnsupportedGrantType),
            ),
        }
    }
}

/// An authorization grant as stored: the code, who it was issued to and for
/// which redirect, and the PKCE challenge. Times are nanoseconds since the
/// Unix epoch.
#[derive(Debug, Clone)]
pub struct AuthorizationCode {
    pub id: u128,
    pub code: String,
    pub user_id: u128,
    pub client_id: u128,
    pub redirect_uri: String,
    pub created_at: i128,
    pub expires_at: i128,
    pub used: bool,
    pub scopes: Option<String>,
    pub code_challenge: String,
    pub code_challenge_method: String,
}

impl AuthorizationCode {
    /// The grant has expired at `now`.
    pub fn is_expired_at(&self, now: i128) -> (r: bool)
        ensures
            r == (now > self.expires_at),
    {
        now > self.expires_at
    }

    /// The grant can be exchanged at `now`: unused and unexpired.
    pub fn is_valid_at(&self, now: i128) -> (r: bool)
        ensures
            r == (!self.used && !(now > self.expires_at)),
    {
        !self.used && !self.is_expired_at(now)
    }

    /// The grant has expired by the machine's clock: the reading, whatever it
    /// is, lies within the range of the clock and the answer is
    /// `is_expired_at` of it.
    pub fn is_expired(&self) -> (r: bool)
        ensures
            exists|now: i128| clock_range(now) && r == (now > self.expires_at),
    {
        let now = now_nanos();
        let r = self.is_expired_at(now);
        assert(clock_range(now) && r == (now > self.expires_at));
        r
    }

    /// The grant can be exchanged now, by the machine's clock: the answer is
    /// `is_valid_at` of a reading within the range of the clock. Whatever the
    /// clock says, a used grant never is.
    pub fn is_valid(&self) -> (r: bool)
        ensures
            r ==> !self.used,
            exists|now: i128|
                clock_range(now) && r == (!self.used && !(now > self.expires_at)),
    {
        let now = now_nanos();
        let r = self.is_valid_at(now);
        assert(clock_range(now) && r == (!self.used && !(now > self.expires_at)));
        r
    }
}

/// How long an authorization code may be exchanged after it is issued, in
/// seconds: ten minutes.
pub const GRANT_LIFETIME_SECS: i128 = 600;

/// The grant stored when `user_id` approves the authorization request `q`:
/// under `code` and `id`, for the client, redirect and PKCE challenge the
/// request names, with `scopes` as the scope text to keep, unused, created
/// at `now` and expiring ten minutes later (times in nanoseconds).
pub fn new_grant(
    id: u128,
    code: &str,
    user_id: u128,
    q: &OAuthAuthorizeQuery,
    scopes: Option<String>,
    now: i128,
) -> (g: AuthorizationCode)
    requires
        now <= i128::MAX - GRANT_LIFETIME_SECS * 1_000_000_000,
    ensures
        g.id == id,
        g.code@ == code@,
        g.user_id == user_id,
        g.client_id == q.client_id,
        g.redirect_uri@ == q.redirect_uri@,
        g.created_at == now,
        g.expires_at == now + GRANT_LIFETIME_SECS * 1_000_000_000,
        !g.used,
        g.scopes == scopes,
        g.code_challenge@ == q.code_challenge@,
        g.code_challenge_method@ == q.code_challenge_method@,
{
    AuthorizationCode {
        id,
        code: code.to_owned(),
        user_id,
        client_id: q.client_id,
        redirect_uri: q.redirect_uri.clone(),
        created_at: now,
        expires_at: now + GRANT_LIFETIME_SECS * 1_000_000_000,
        used: false,
        scopes,
        code_challenge: q.code_challenge.clone(),
        code_challenge_method: q.code_challenge_method.clone(),
    }
}

/// A new grant for `user_id` on the request `q`, under a fresh random code
/// and a fresh time-ordered id, created now by the machine's clock and
/// expiring ten minutes later.
pub fn issue_grant(user_id: u128, q: &OAuthAuthorizeQuery, scopes: Option<String>) -> (g: AuthorizationCode)
    ensures
        g.code@.len() == 32,
        forall|i: int| 0 <= i < 32 ==> is_code_char(#[trigger] g.code@[i]),
        g.user_id == user_id,
        g.client_id == q.client_id,
        g.redirect_uri@ == q.redirect_uri@,
        clock_range(g.created_at),
        g.expires_at == g.created_at + GRANT_LIFETIME_SECS * 1_000_000_000,
        !g.used,
        g.scopes == scopes,
        g.code_challenge@ == q.code_challenge@,
        g.code_challenge_method@ == q.code_challenge_method@,
{
    let code = generate_code();
    let id = new_v7_id();
    let now = now_nanos();
    new_grant(id, code.as_str(), user_id, q, scopes, now)
}

/// Law: a grant as issued can be exchanged, by the client and redirect it
/// names with a verifier that matches its challenge, at any time from its
/// creation until ten minutes have passed, and not a moment after.
pub proof fn law_issued_grant_lives_ten_minutes(g: AuthorizationCode, t: i128, code_verifier: Seq<char>)
    requires
        !g.used,
        g.expires_at == g.created_at + GRANT_LIFETIME_SECS * 1_000_000_000,
        g.created_at <= t,
        pkce_matches(g.code_challenge@, code_verifier, g.code_challenge_method@),
    ensures
        t <= g.created_at + GRANT_LIFETIME_SECS * 1_000_000_000 ==> code_grant_refusal(
            Some(g),
            t,
            g.client_id,
            code_verifier,
            g.redirect_uri@,
        ) is None,
        t > g.created_at + GRANT_LIFETIME_SECS * 1_000_000_000 ==> code_grant_refusal(
            Some(g),
            t,
            g.client_id,
            code_verifier,
            g.redirect_uri@,
        ) == Some((OAuthErrorType::AccessDenied, None::<u128>)),
{
}

/// A refresh token as stored. Tokens minted from one grant share its id as
/// their family.
#[derive(Debug, Clone, Copy)]
pub struct RefreshToken {
    pub id: u128,
    pub user_id: u128,
    pub family_id: u128,
    pub created_at: i128,
    pub expires_at: i128,
    pub used: bool,
    pub revoked: bool,
}

/// A refused token request: the error answered, and the token family that is
/// revoked first when the refusal detected reuse.
#[derive(Debug, Clone)]
pub struct TokenRefusal {
    pub error: OAuthTokenError,
    pub revoke_family: Option<u128>,
}

/// What a successful code exchange issues.
#[derive(Debug, Clone)]
pub struct CodeExchange {
    /// The code to mark used.
    pub code: String,
    pub user_id: u128,
    pub client_id: u128,
    /// The family of the refresh tokens minted from this grant.
    pub family_id: u128,
    /// A refresh token is issued only when `offline_access` was granted.
    pub issue_refresh: bool,
    /// The scopes reported with the tokens: those stored with the grant.
    pub scope: Option<String>,
}

/// Why exchanging `grant` at `now` for the client, verifier and redirect URI
/// of the request fails, with the family to revoke; none when it succeeds.
pub open spec fn code_grant_refusal(
    grant: Option<AuthorizationCode>,
    now: i128,
    client_id: u128,
    code_verifier: Seq<char>,
    redirect_uri: Seq<char>,
) -> Option<(OAuthErrorType, Option<u128>)> {
    match grant {
        None => Some((OAuthErrorType::AccessDenied, None)),
        Some(g) => if g.used {
            Some((OAuthErrorType::AccessDenied, Some(g.id)))
        } else if now > g.expires_at {
            Some((OAuthErrorType::AccessDenied, None))
        } else if g.client_id != client_id {
            Some((OAuthErrorType::InvalidClientId, None))
        } else if g.redirect_uri@ != redirect_uri {
            Some((OAuthErrorType::InvalidRedirect, None))
        } else if !pkce_matches(g.code_challenge@, code_verifier, g.code_challenge_method@) {
            Some((OAuthErrorType::InvalidCodeGrant, None))
        } else {
            None
        },
    }
}

/// The scopes stored with a grant grant `offline_access`.
pub open spec fn grants_offline_access(scopes: Option<String>) -> bool {
    match scopes {
        Some(s) => known_scopes(ws_tokens(s@)).contains(Scope::OfflineAccess),
        None => false,
    }
}

/// `x` is the exchange that the valid grant `g` gives `client_id`.
pub open spec fn exchange_of(g: AuthorizationCode, client_id: u128, x: CodeExchange) -> bool {
    &&& x.code == g.code
    &&& x.user_id == g.user_id
    &&& x.client_id == client_id
    &&& x.family_id == g.id
    &&& x.issue_refresh == grants_offline_access(g.scopes)
    &&& x.scope == g.scopes
}

/// `r` reports the refusal `f`.
pub open spec fn refuses_with(r: TokenRefusal, f: (OAuthErrorType, Option<u128>)) -> bool {
    *r.error.error_type == f.0 && r.revoke_family == f.1
}

fn refuse(t: OAuthErrorType, family: Option<u128>) -> (r: TokenRefusal)
    ensures
        refuses_with(r, (t, family)),
{
    TokenRefusal { error: OAuthTokenError::error(t), revoke_family: family }
}

/// Exchanges the grant looked up for a code at `now`. An unknown, expired or
/// used code is denied, and a used one revokes every refresh token minted
/// from its grant (RFC 6749 §4.1.2); the client and redirect URI must be the
/// ones the code was issued for, and the verifier must match the challenge.
pub fn decide_code_grant(
    grant: Option<AuthorizationCode>,
    now: i128,
    client_id: u128,
    code_verifier: &str,
    redirect_uri: &str,
) -> (r: Result<CodeExchange, TokenRefusal>)
    ensures
        match code_grant_refusal(grant, now, client_id, code_verifier@, redirect_uri@) {
            Some(f) => r matches Err(e) && refuses_with(e, f),
            None => r matches Ok(x) && exchange_of(grant->0, client_id, x),
        },
{
    let g = match grant {
        None => return Err(refuse(OAuthErrorType::AccessDenied, None)),
        Some(g) => g,
    };
    if g.used {
        return Err(refuse(OAuthErrorType::AccessDenied, Some(g.id)));
    }
    if !g.is_valid_at(now) {
        return Err(refuse(OAuthErrorType::AccessDenied, None));
    }
    if g.client_id != client_id {
        return Err(refuse(OAuthErrorType::InvalidClientId, None));
    }
    if !str_eq(g.redirect_uri.as_str(), redirect_uri) {
        return Err(refuse(OAuthErrorType::InvalidRedirect, None));
    }
    if !validate_pkce(g.code_challenge.as_str(), code_verifier, g.code_challenge_method.as_str()) {
        return Err(refuse(OAuthErrorType::InvalidCodeGrant, None));
    }
    let granted = scopes_from_stored(&g.scopes);
    let issue_refresh = contains_scope(&granted, Scope::OfflineAccess);
    Ok(
        CodeExchange {
            code: g.code,
            user_id: g.user_id,
            client_id,
            family_id: g.id,
            issue_refresh,
            scope: g.scopes,
        },
    )
}

/// Exchanges a code by the machine's clock. Whatever the clock says, a used
/// code is refused and its family revoked, and an exchange only ever goes to
/// the client and redirect URI the code was issued for, with a matching
/// verifier.
pub fn decide_code_grant_now(
    grant: Option<AuthorizationCode>,
    client_id: u128,
    code_verifier: &str,
    redirect_uri: &str,
) -> (r: Result<CodeExchange, TokenRefusal>)
    ensures
        grant is None ==> (r matches Err(e) && refuses_with(e, (OAuthErrorType::AccessDenied, None))),
        grant matches Some(g) ==> (g.used ==> (r matches Err(e) && refuses_with(
            e,
            (OAuthErrorType::AccessDenied, Some(g.id)),
        ))),
        r matches Ok(x) ==> grant matches Some(g) && !g.used && g.client_id == client_id
            && g.redirect_uri@ == redirect_uri@ && pkce_matches(
            g.code_challenge@,
            code_verifier@,
            g.code_challenge_method@,
        ) && exchange_of(g, client_id, x),
{
    decide_code_grant(grant, now_nanos(), client_id, code_verifier, redirect_uri)
}

/// The grant after its code has been exchanged.
pub open spec fn spend_code(g: AuthorizationCode) -> AuthorizationCode {
    AuthorizationCode { used: true, ..g }
}

/// Law: an authorization code is exchanged at most once. Once a code has
/// been exchanged, presenting it again, with any request and at any time, is
/// denied and revokes the family of the refresh tokens minted from it.
pub proof fn law_code_single_use(
    g: AuthorizationCode,
    now: i128,
    later: i128,
    client_id: u128,
    verifier: Seq<char>,
    redirect: Seq<char>,
    client2: u128,
    verifier2: Seq<char>,
    redirect2: Seq<char>,
)
    requires
        code_grant_refusal(Some(g), now, client_id, verifier, redirect) is None,
    ensures
        code_grant_refusal(Some(spend_code(g)), later, client2, verifier2, redirect2) == Some(
            (OAuthErrorType::AccessDenied, Some(g.id)),
        ),
{
}

/// Law: a code is only ever exchanged by the client it was issued to, for the
/// redirect URI it was issued for, with a verifier that hashes to its
/// challenge, while unused and unexpired.
pub proof fn law_code_exchange_is_bound(
    grant: Option<AuthorizationCode>,
    now: i128,
    client_id: u128,
    verifier: Seq<char>,
    redirect: Seq<char>,
)
    requires
        code_grant_refusal(grant, now, client_id, verifier, redirect) is None,
    ensures
        grant matches Some(g) && !g.used && !(now > g.expires_at) && g.client_id == client_id
            && g.redirect_uri@ == redirect && pkce_matches(
            g.code_challenge@,
            verifier,
            g.code_challenge_method@,
        ),
{
}

/// What a successful refresh issues.
#[derive(Debug, Clone)]
pub struct RefreshExchange {
    /// The presented token, to mark used.
    pub spent_token: u128,
    pub user_id: u128,
    pub client_id: u128,
    /// The family the new refresh token joins.
    pub family_id: u128,
    /// The scope granted to the family, copied onto the new tokens so that
    /// none carries a scope that was not granted (RFC 6749 §6).
    pub scope: Option<String>,
}

/// Why refreshing with a token whose (already checked) claims are `claims`
/// fails, with the family to revoke; none when it succeeds. `token` is the
/// stored row named by the claims' id.
pub open spec fn refresh_refusal(
    sent_client: Option<u128>,
    claims: RefreshClaims,
    token: Option<RefreshToken>,
) -> Option<(OAuthErrorType, Option<u128>)> {
    if sent_client matches Some(c) && c != claims.aud {
        Some((OAuthErrorType::InvalidClientId, None))
    } else {
        match token {
            None => Some((OAuthErrorType::MissingRefreshToken, None)),
            Some(t) => if t.used || t.revoked {
                Some((OAuthErrorType::AccessDenied, Some(t.family_id)))
            } else if t.user_id != claims.sub {
                Some((OAuthErrorType::MalformedRefreshToken, None))
            } else {
                None
            },
        }
    }
}

/// Exchanges a refresh token. A client id that is sent must be the token's
/// audience; the token must be on record; a token used before, or of a
/// revoked family, is treated as stolen: its whole family is revoked and the
/// request denied (OAuth 2.1 §6.1); the stored owner must be the token's
/// subject. The new tokens go to the token's audience and stay in its family.
pub fn decide_refresh(
    sent_client: Option<u128>,
    claims: &RefreshClaims,
    token: Option<RefreshToken>,
) -> (r: Result<RefreshExchange, TokenRefusal>)
    ensures
        match refresh_refusal(sent_client, *claims, token) {
            Some(f) => r matches Err(e) && refuses_with(e, f),
            None => r matches Ok(x) && x.spent_token == token->0.id && x.user_id == token->0.user_id
                && x.client_id == claims.aud && x.family_id == token->0.family_id && x.scope
                == claims.scope,
        },
{
    if let Some(sent) = sent_client {
        if claims.aud != sent {
            return Err(refuse(OAuthErrorType::InvalidClientId, None));
        }
    }
    let t = match token {
        None => return Err(refuse(OAuthErrorType::MissingRefreshToken, None)),
        Some(t) => t,
    };
    if t.used || t.revoked {
        return Err(refuse(OAuthErrorType::AccessDenied, Some(t.family_id)));
    }
    if t.user_id != claims.sub {
        return Err(refuse(OAuthErrorType::MalformedRefreshToken, None));
    }
    let scope = match &claims.scope {
        Some(sc) => Some(sc.clone()),
        None => None,
    };
    Ok(
        RefreshExchange {
            spent_token: t.id,
            user_id: t.user_id,
            client_id: claims.aud,
            family_id: t.family_id,
            scope,
        },
    )
}

/// The stored token after it has been exchanged.
pub open spec fn spend_token(t: RefreshToken) -> RefreshToken {
    RefreshToken { used: true, ..t }
}

/// The stored token after its family has been revoked.
pub open spec fn revoke_token(t: RefreshToken) -> RefreshToken {
    RefreshToken { used: true, revoked: true, ..t }
}

/// Law: refresh tokens rotate. Once a token has been exchanged, or its
/// family revoked, presenting it again is denied and revokes its family,
/// whoever presents it.
pub proof fn law_refresh_single_use(
    claims: RefreshClaims,
    t: RefreshToken,
    sent: Option<u128>,
    sent2: Option<u128>,
)
    requires
        refresh_refusal(sent, claims, Some(t)) is None,
        sent2 is None || sent2 == Some(claims.aud),
    ensures
        refresh_refusal(sent2, claims, Some(spend_token(t))) == Some(
            (OAuthErrorType::AccessDenied, Some(t.family_id)),
        ),
        refresh_refusal(sent2, claims, Some(revoke_token(t))) == Some(
            (OAuthErrorType::AccessDenied, Some(t.family_id)),
        ),
{
}

/// The body of a successful token response.
#[derive(Debug, Clone)]
pub struct OAuthTokenResponse {
    pub access_token: String,
    pub refresh_token: Option<String>,
    pub token_type: String,
    /// The lifetime of the access token, in seconds.
    pub expires_in: i64,
    pub scope: Option<String>,
}

/// The response carrying freshly minted tokens: `access_token` is the token
/// signed over `claims`, and `expires_in` is the lifetime those claims give
/// it, from issue to expiry.
pub fn token_response(
    access_token: String,
    claims: &Claims,
    refresh_token: Option<String>,
    scope: Option<String>,
) -> (r: OAuthTokenResponse)
    requires
        i64::MIN <= claims.exp - claims.iat <= i64::MAX,
    ensures
        r.access_token == access_token,
        r.refresh_token == refresh_token,
        r.token_type@ == "Bearer"@,
        r.expires_in == claims.exp - claims.iat,
        r.scope == scope,
{
    OAuthTokenResponse {
        access_token,
        refresh_token,
        token_type: String::from_str("Bearer"),
        expires_in: claims.exp - claims.iat,
        scope,
    }
}

/// A token revocation request (RFC 7009).
#[derive(Debug, Clone)]
pub struct OAuthRevokeRequest {
    pub token: String,
    pub token_type_hint: Option<String>,
}

/// The family a revocation revokes: that of the stored token the presented
/// one names, if any. The endpoint answers 200 either way (RFC 7009 §2.2).
pub fn revocation_target(token: Option<RefreshToken>) -> (r: Option<u128>)
    ensures
        r == match token {
            Some(t) => Some(t.family_id),
            None => None::<u128>,
        },
{
    match token {
        Some(t) => Some(t.family_id),
        None => None,
    }
}

} // verus!
