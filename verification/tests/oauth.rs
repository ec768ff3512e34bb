use hermes::{
    authorize_error_body, authorize_scope, authorize_user, build_error_redirect, code_redirect,
    decide_code_grant, decide_refresh, generate_code, is_valid_pkce_charset, login_redirect,
    parse_scopes, revocation_target, scopes_from_stored, scopes_to_string, token_response,
    validate_pkce, AuthorizationCode, AuthorizeErrorResponse, JwtError, OAuthAuthorizeError,
    OAuthAuthorizeQuery, OAuthErrorType, OAuthTokenError, OAuthTokenRequest, RefreshClaims,
    RefreshToken, Scope, OAUTH_CLIENT_ID, OAUTH_DEV_REDIRECT_URI, OAUTH_REDIRECT_URI,
    access_claims, issue_grant, new_grant, ACCESS_TOKEN_LIFETIME, GRANT_LIFETIME_SECS,
};

const VERIFIER: &str = "dBjftJeZ4CVP-mB92K27uhbUJU1p1r_wW1gFWFOEjXk";
const CHALLENGE: &str = "E9Melhoa2OwvFrEMTJguCHaoeK1t8URWbuGJSstw-cM";

fn query() -> OAuthAuthorizeQuery {
    OAuthAuthorizeQuery {
        response_type: "code".to_string(),
        client_id: OAUTH_CLIENT_ID,
        redirect_uri: OAUTH_REDIRECT_URI.to_string(),
        state: "st8".to_string(),
        scope: Some("profile offline_access".to_string()),
        code_challenge: CHALLENGE.to_string(),
        code_challenge_method: "S256".to_string(),
    }
}

fn err_kind(e: &OAuthAuthorizeError) -> String {
    e.error_type.name_static().to_string()
}

#[test]
fn scope_names_round_trip() {
    assert_eq!(Scope::Profile.as_str(), "profile");
    assert_eq!(Scope::OfflineAccess.as_str(), "offline_access");
    assert_eq!(Scope::from_str("profile"), Ok(Scope::Profile));
    assert_eq!(Scope::from_str("offline_access"), Ok(Scope::OfflineAccess));
    assert_eq!(Scope::from_str("openid"), Err(()));
}

#[test]
fn parse_scopes_reads_a_space_separated_list() {
    let v = parse_scopes("  offline_access\tprofile ").unwrap();
    assert_eq!(v, vec![Scope::OfflineAccess, Scope::Profile]);
    assert_eq!(parse_scopes("").unwrap(), Vec::<Scope>::new());
}

#[test]
fn parse_scopes_rejects_a_scope_named_twice() {
    let e = parse_scopes("offline_access profile offline_access").unwrap_err();
    assert!(matches!(*e.error_type, OAuthErrorType::InvalidScope));
}

#[test]
fn parse_scopes_rejects_unknown_scope() {
    let e = parse_scopes("profile email").unwrap_err();
    assert!(matches!(*e.error_type, OAuthErrorType::InvalidScope));
    assert!(e.state.is_none() && e.valid_redirect_uri.is_none());
}

#[test]
fn stored_scopes_read_back() {
    let granted = vec![Scope::Profile, Scope::OfflineAccess];
    let stored = scopes_to_string(&granted);
    assert_eq!(stored, "profile offline_access");
    assert_eq!(scopes_from_stored(&Some(stored.clone())), granted);
    assert_eq!(parse_scopes(&stored).unwrap(), granted);
    assert_eq!(scopes_from_stored(&Some("profile unknown".to_string())), vec![Scope::Profile]);
    assert_eq!(scopes_from_stored(&None), Vec::<Scope>::new());
    assert_eq!(scopes_to_string(&[]), "");
}

#[test]
fn pkce_matches_the_rfc_example() {
    assert!(validate_pkce(CHALLENGE, VERIFIER, "S256"));
    assert!(!validate_pkce(CHALLENGE, VERIFIER, "plain"));
    assert!(!validate_pkce("E9Melhoa2OwvFrEMTJguCHaoeK1t8URWbuGJSstw-cN", VERIFIER, "S256"));
    // too short
    assert!(!validate_pkce(CHALLENGE, "abc", "S256"));
}

#[test]
fn pkce_charset() {
    assert!(is_valid_pkce_charset("AZaz09-._~"));
    assert!(!is_valid_pkce_charset("a b"));
    assert!(!is_valid_pkce_charset("é"));
    assert!(is_valid_pkce_charset(""));
}

#[test]
fn generated_codes_are_32_alphanumerics() {
    let a = generate_code();
    assert_eq!(a.len(), 32);
    assert!(a.chars().all(|c| c.is_ascii_alphanumeric()));
    let b = generate_code();
    assert_ne!(a, b);
}

#[test]
fn authorize_query_checks_in_order() {
    assert!(query().validate().is_ok());
    let mut q = query();
    q.redirect_uri = "https://evil.example/cb".to_string();
    q.response_type = "token".to_string();
    let e = q.validate().unwrap_err();
    assert!(matches!(*e.error_type, OAuthErrorType::InvalidRedirect));
    assert!(e.valid_redirect_uri.is_none());

    let mut q = query();
    q.redirect_uri = OAUTH_DEV_REDIRECT_URI.to_string();
    assert!(q.validate().is_ok());

    let mut q = query();
    q.client_id = 7;
    assert!(matches!(*q.validate().unwrap_err().error_type, OAuthErrorType::InvalidClientId));

    let mut q = query();
    q.state = String::new();
    let e = q.validate().unwrap_err();
    assert!(matches!(*e.error_type, OAuthErrorType::InvalidRequest));
    assert!(e.state.is_none());

    let mut q = query();
    q.response_type = "token".to_string();
    let e = q.validate().unwrap_err();
    assert!(matches!(*e.error_type, OAuthErrorType::InvalidCodeGrant));
    assert_eq!(e.state.as_deref(), Some("st8"));
    assert_eq!(e.valid_redirect_uri.as_deref(), Some(OAUTH_REDIRECT_URI));

    let mut q = query();
    q.code_challenge_method = "plain".to_string();
    assert!(matches!(
        *q.validate().unwrap_err().error_type,
        OAuthErrorType::UnsupportedCodeChallengeMethod
    ));

    let mut q = query();
    q.code_challenge = "short".to_string();
    assert!(matches!(*q.validate().unwrap_err().error_type, OAuthErrorType::InvalidCodeChallenge));

    let mut q = query();
    q.scope = Some("profile admin".to_string());
    let e = q.validate().unwrap_err();
    assert!(matches!(*e.error_type, OAuthErrorType::InvalidScope));
    assert_eq!(e.state.as_deref(), Some("st8"));
}

#[test]
fn authorize_records_the_requested_scope() {
    assert_eq!(authorize_scope(&query()).unwrap().as_deref(), Some("profile offline_access"));
    let mut q = query();
    q.scope = Some("   ".to_string());
    assert_eq!(authorize_scope(&q).unwrap(), None);
    q.scope = None;
    assert_eq!(authorize_scope(&q).unwrap(), None);
    q.scope = Some("offline_access offline_access".to_string());
    let e = authorize_scope(&q).unwrap_err();
    assert!(matches!(*e.error_type, OAuthErrorType::InvalidScope));
    assert_eq!(e.state.as_deref(), Some("st8"));
}

#[test]
fn authorize_reads_the_session_user() {
    assert_eq!(authorize_user("00000000-0000-0000-0000-00000000002a").unwrap(), 42);
    let e = authorize_user("not a uuid").unwrap_err();
    assert!(matches!(*e.error_type, OAuthErrorType::Uuid(_)));
}

#[test]
fn code_redirect_appends_code_and_state() {
    assert_eq!(
        code_redirect(OAUTH_REDIRECT_URI, "abc", "st8").unwrap(),
        "hermes://oauth?code=abc&state=st8"
    );
    assert_eq!(
        code_redirect(OAUTH_DEV_REDIRECT_URI, "abc", "a b").unwrap(),
        "http://localhost:1420/oauth?code=abc&state=a+b"
    );
    let e = code_redirect("not a url", "abc", "st8").unwrap_err();
    assert!(matches!(*e.error_type, OAuthErrorType::UrlParse(_)));
}

#[test]
fn login_redirect_returns_to_the_request() {
    let url = login_redirect("http://localhost:5000", &query()).unwrap();
    assert_eq!(
        url,
        "http://localhost:5000/login?return_to=http%3A%2F%2Flocalhost%3A5000%2Fauth%2Fauthorize%3Fresponse_type%3Dcode%26client_id%3D00000000-0000-0000-0000-000000000000%26redirect_uri%3Dhermes%253A%252F%252Foauth%26code_challenge%3DE9Melhoa2OwvFrEMTJguCHaoeK1t8URWbuGJSstw-cM%26code_challenge_method%3DS256%26state%3Dst8%26scope%3Dprofile%2Boffline_access"
    );
    let e = login_redirect("no origin", &query()).unwrap_err();
    assert!(matches!(*e.error_type, OAuthErrorType::UrlParse(_)));
}

#[test]
fn error_redirect_encodes_every_parameter() {
    assert_eq!(
        build_error_redirect(
            "hermes://oauth",
            "access_denied",
            "The resource owner denied the request",
            Some("a b&c")
        ),
        "hermes://oauth?error=access_denied&error_description=The+resource+owner+denied+the+request&state=a+b%26c"
    );
    assert_eq!(
        build_error_redirect("::bad", "access_denied", "x", None),
        "::bad"
    );
}

#[test]
fn authorize_errors_redirect_only_when_the_uri_is_known() {
    let e = OAuthAuthorizeError::redirect(OAuthErrorType::InvalidScope, "st8", OAUTH_REDIRECT_URI.to_string());
    match e.error_response() {
        AuthorizeErrorResponse::Redirect { location } => assert_eq!(
            location,
            "hermes://oauth?error=invalid_scope&error_description=The+requested+scope+is+invalid%2C+unknown%2C+or+malformed&state=st8"
        ),
        other => panic!("unexpected {:?}", other),
    }
    let e = OAuthAuthorizeError::error(OAuthErrorType::Db("disk full".to_string()));
    match e.error_response() {
        AuthorizeErrorResponse::Body { status, body } => {
            assert_eq!(status, 500);
            assert_eq!(body.code, 500);
            assert_eq!(body.message, "server_error");
            assert_eq!(body.target, "query");
            assert_eq!(body.details.len(), 1);
            assert_eq!(body.details[0].message, "Internal Server Error");
            let ctx = body.innererror.unwrap();
            assert_eq!(ctx.trace(), &vec!["db".to_string(), "disk full".to_string()]);
        }
        other => panic!("unexpected {:?}", other),
    }
}

#[test]
fn error_taxonomy() {
    assert_eq!(OAuthErrorType::AccessDenied.name_static(), "access_denied");
    assert_eq!(OAuthErrorType::InvalidClientId.name_static(), "invalid_client");
    assert_eq!(OAuthErrorType::InvalidCodeGrant.name_static(), "invalid_grant");
    assert_eq!(OAuthErrorType::UnsupportedGrantType.name_static(), "unsupported_grant_type");
    assert_eq!(OAuthErrorType::Jwt(JwtError::Jwt("bad".to_string())).name_static(), "invalid_request");
    assert_eq!(OAuthErrorType::Jwt(JwtError::KeysUninitialized).name_static(), "server_error");
    assert_eq!(OAuthErrorType::AccessDenied.status(), 400);
    assert_eq!(OAuthErrorType::Jwt(JwtError::Var("x".to_string())).status(), 500);
    // signing keys that were never loaded are not counted among server failures
    assert_eq!(OAuthErrorType::Jwt(JwtError::KeysUninitialized).status(), 400);
    assert!(OAuthErrorType::InvalidScope.get_context().is_none());
    let ctx = OAuthErrorType::Jwt(JwtError::KeyLoad("bad pem".to_string())).get_context().unwrap();
    assert_eq!(ctx.trace(), &vec!["jwt".to_string(), "failed to load JWT signing key: bad pem".to_string()]);
    let body = authorize_error_body(&OAuthErrorType::InvalidRedirect);
    assert_eq!(body.code, 400);
    assert_eq!(body.message, "invalid_request");
    assert_eq!(body.details[0].code, 400);
    assert_eq!(body.details[0].message, "the provided redirect URI is invalid");
    assert!(body.innererror.is_none());
}

#[test]
fn token_error_body() {
    let (status, body) = OAuthTokenError::error(OAuthErrorType::InvalidCodeGrant).error_response();
    assert_eq!(status, 400);
    assert_eq!(body.error, "invalid_grant");
    assert_eq!(body.error_description, "The provided code grant is not supported");
    assert!(body.error_uri.is_none());
}

fn code_request(verifier: &str, code: &str) -> OAuthTokenRequest {
    OAuthTokenRequest::AuthorizationCode {
        client_id: OAUTH_CLIENT_ID,
        code: code.to_string(),
        code_verifier: verifier.to_string(),
        redirect_uri: OAUTH_REDIRECT_URI.to_string(),
    }
}

fn token_err_name(r: Result<(), OAuthTokenError>) -> &'static str {
    r.unwrap_err().error_type.name_static()
}

#[test]
fn token_requests_are_checked_for_shape() {
    let code = "a".repeat(32);
    assert!(code_request(VERIFIER, &code).validate().is_ok());
    let e = code_request("short", &code).validate().unwrap_err();
    assert!(matches!(*e.error_type, OAuthErrorType::MalformedCodeVerifier));
    let e = code_request(&"v".repeat(129), &code).validate().unwrap_err();
    assert!(matches!(*e.error_type, OAuthErrorType::MalformedCodeVerifier));
    let e = code_request(VERIFIER, "abc").validate().unwrap_err();
    assert!(matches!(*e.error_type, OAuthErrorType::MalformedCode));
    let r = OAuthTokenRequest::RefreshToken { client_id: None, refresh_token: String::new() };
    assert!(matches!(*r.validate().unwrap_err().error_type, OAuthErrorType::MalformedRefreshToken));
    let r = OAuthTokenRequest::RefreshToken { client_id: None, refresh_token: "t".to_string() };
    assert!(r.validate().is_ok());
    assert_eq!(token_err_name(OAuthTokenRequest::Unsupported.validate()), "unsupported_grant_type");
}

fn grant(used: bool, scopes: Option<&str>) -> AuthorizationCode {
    AuthorizationCode {
        id: 900,
        code: "c".repeat(32),
        user_id: 5,
        client_id: OAUTH_CLIENT_ID,
        redirect_uri: OAUTH_REDIRECT_URI.to_string(),
        created_at: 0,
        expires_at: 600_000_000_000,
        used,
        scopes: scopes.map(|s| s.to_string()),
        code_challenge: CHALLENGE.to_string(),
        code_challenge_method: "S256".to_string(),
    }
}

#[test]
fn a_valid_code_is_exchanged() {
    let x = decide_code_grant(Some(grant(false, Some("profile offline_access"))), 1, OAUTH_CLIENT_ID, VERIFIER, OAUTH_REDIRECT_URI)
        .unwrap();
    assert_eq!(x.user_id, 5);
    assert_eq!(x.family_id, 900);
    assert!(x.issue_refresh);
    assert_eq!(x.scope.as_deref(), Some("profile offline_access"));
    assert_eq!(x.code, "c".repeat(32));
    let x = decide_code_grant(Some(grant(false, Some("profile"))), 1, OAUTH_CLIENT_ID, VERIFIER, OAUTH_REDIRECT_URI)
        .unwrap();
    assert!(!x.issue_refresh);
}

#[test]
fn a_reused_code_revokes_its_family() {
    let r = decide_code_grant(Some(grant(true, None)), 1, OAUTH_CLIENT_ID, VERIFIER, OAUTH_REDIRECT_URI);
    let e = r.unwrap_err();
    assert!(matches!(*e.error.error_type, OAuthErrorType::AccessDenied));
    assert_eq!(e.revoke_family, Some(900));
}

#[test]
fn code_exchange_refusals() {
    let e = decide_code_grant(None, 1, OAUTH_CLIENT_ID, VERIFIER, OAUTH_REDIRECT_URI).unwrap_err();
    assert!(matches!(*e.error.error_type, OAuthErrorType::AccessDenied));
    assert_eq!(e.revoke_family, None);
    let e = decide_code_grant(Some(grant(false, None)), 600_000_000_001, OAUTH_CLIENT_ID, VERIFIER, OAUTH_REDIRECT_URI)
        .unwrap_err();
    assert!(matches!(*e.error.error_type, OAuthErrorType::AccessDenied));
    assert_eq!(e.revoke_family, None);
    let e = decide_code_grant(Some(grant(false, None)), 1, 3, VERIFIER, OAUTH_REDIRECT_URI).unwrap_err();
    assert!(matches!(*e.error.error_type, OAuthErrorType::InvalidClientId));
    let e = decide_code_grant(Some(grant(false, None)), 1, OAUTH_CLIENT_ID, VERIFIER, OAUTH_DEV_REDIRECT_URI)
        .unwrap_err();
    assert!(matches!(*e.error.error_type, OAuthErrorType::InvalidRedirect));
    let other = "dBjftJeZ4CVP-mB92K27uhbUJU1p1r_wW1gFWFOEjXX";
    let e = decide_code_grant(Some(grant(false, None)), 1, OAUTH_CLIENT_ID, other, OAUTH_REDIRECT_URI).unwrap_err();
    assert!(matches!(*e.error.error_type, OAuthErrorType::InvalidCodeGrant));
}

#[test]
fn grant_validity() {
    let g = grant(false, None);
    assert!(!g.is_expired_at(600_000_000_000));
    assert!(g.is_expired_at(600_000_000_001));
    assert!(g.is_valid_at(0));
    assert!(!grant(true, None).is_valid_at(0));
    // the grant expired long ago by the machine's clock
    assert!(g.is_expired());
    assert!(!g.is_valid());
}

#[test]
fn grant_validity_beyond_the_clock_range() {
    let mut far = grant(false, None);
    far.expires_at = i128::MAX;
    assert!(!far.is_expired());
    assert!(far.is_valid());
    far.used = true;
    assert!(!far.is_valid());
    let mut past = grant(false, None);
    past.expires_at = i128::MIN;
    assert!(past.is_expired());
    assert!(!past.is_valid());
}

fn claims(aud: u128, sub: u128) -> RefreshClaims {
    RefreshClaims { iss: "http://localhost:5000".to_string(), aud, sub, exp: 10, iat: 0, jti: 77, scope: None }
}

fn stored(used: bool, revoked: bool) -> RefreshToken {
    RefreshToken { id: 77, user_id: 5, family_id: 900, created_at: 0, expires_at: 10, used, revoked }
}

#[test]
fn refresh_rotates_within_the_family() {
    let x = decide_refresh(None, &claims(OAUTH_CLIENT_ID, 5), Some(stored(false, false))).unwrap();
    assert_eq!(x.spent_token, 77);
    assert_eq!(x.user_id, 5);
    assert_eq!(x.client_id, OAUTH_CLIENT_ID);
    assert_eq!(x.family_id, 900);
    let x = decide_refresh(Some(OAUTH_CLIENT_ID), &claims(OAUTH_CLIENT_ID, 5), Some(stored(false, false))).unwrap();
    assert_eq!(x.spent_token, 77);
    assert_eq!(x.scope, None);
    let mut c = claims(OAUTH_CLIENT_ID, 5);
    c.scope = Some("offline_access".to_string());
    let x = decide_refresh(None, &c, Some(stored(false, false))).unwrap();
    assert_eq!(x.scope.as_deref(), Some("offline_access"));
}

#[test]
fn refresh_refusals() {
    let e = decide_refresh(Some(9), &claims(OAUTH_CLIENT_ID, 5), Some(stored(false, false))).unwrap_err();
    assert!(matches!(*e.error.error_type, OAuthErrorType::InvalidClientId));
    let e = decide_refresh(None, &claims(OAUTH_CLIENT_ID, 5), None).unwrap_err();
    assert!(matches!(*e.error.error_type, OAuthErrorType::MissingRefreshToken));
    for (used, revoked) in [(true, false), (false, true), (true, true)] {
        let e = decide_refresh(None, &claims(OAUTH_CLIENT_ID, 5), Some(stored(used, revoked))).unwrap_err();
        assert!(matches!(*e.error.error_type, OAuthErrorType::AccessDenied));
        assert_eq!(e.revoke_family, Some(900));
    }
    let e = decide_refresh(None, &claims(OAUTH_CLIENT_ID, 6), Some(stored(false, false))).unwrap_err();
    assert!(matches!(*e.error.error_type, OAuthErrorType::MalformedRefreshToken));
    assert_eq!(e.revoke_family, None);
}

#[test]
fn token_response_and_revocation() {
    let c = access_claims("http://localhost:5000", 5, OAUTH_CLIENT_ID, 77, 1_000, None);
    let r = token_response("a".to_string(), &c, None, Some("profile".to_string()));
    assert_eq!(r.token_type, "Bearer");
    assert_eq!(r.expires_in, c.exp - c.iat);
    assert_eq!(r.expires_in, ACCESS_TOKEN_LIFETIME);
    assert_eq!(r.expires_in, 86400);
    assert_eq!(r.scope.as_deref(), Some("profile"));
    assert_eq!(revocation_target(Some(stored(false, false))), Some(900));
    assert_eq!(revocation_target(None), None);
}

#[test]
fn error_kinds_of_refusals_name_the_rfc_codes() {
    let e = OAuthAuthorizeError::error(OAuthErrorType::AccessDenied);
    assert_eq!(err_kind(&e), "access_denied");
}

#[test]
fn an_approved_request_stores_its_grant() {
    let q = query();
    let g = new_grant(31, "abc", 5, &q, Some("profile".to_string()), 1_000);
    assert_eq!((g.id, g.code.as_str(), g.user_id, g.client_id), (31, "abc", 5, OAUTH_CLIENT_ID));
    assert_eq!(g.redirect_uri, OAUTH_REDIRECT_URI);
    assert_eq!((g.created_at, g.expires_at), (1_000, 1_000 + 600_000_000_000));
    assert_eq!(GRANT_LIFETIME_SECS, 600);
    assert!(!g.used);
    assert_eq!(g.scopes.as_deref(), Some("profile"));
    assert_eq!((g.code_challenge.as_str(), g.code_challenge_method.as_str()), (CHALLENGE, "S256"));
    // exchangeable until ten minutes have passed, and not after
    assert!(decide_code_grant(Some(g.clone()), 1_000 + 600_000_000_000, OAUTH_CLIENT_ID, VERIFIER, OAUTH_REDIRECT_URI).is_ok());
    let e = decide_code_grant(Some(g), 1_000 + 600_000_000_001, OAUTH_CLIENT_ID, VERIFIER, OAUTH_REDIRECT_URI)
        .unwrap_err();
    assert!(matches!(*e.error.error_type, OAuthErrorType::AccessDenied));
}

#[test]
fn an_issued_grant_is_fresh() {
    let q = query();
    let g = issue_grant(5, &q, None);
    assert_eq!(g.code.len(), 32);
    assert!(g.code.chars().all(|c| c.is_ascii_alphanumeric()));
    assert_eq!(g.expires_at - g.created_at, 600_000_000_000);
    assert!(g.is_valid());
    assert!(!g.is_expired());
    assert_eq!(g.scopes, None);
    let h = issue_grant(5, &q, None);
    assert_ne!(g.code, h.code);
    assert_ne!(g.id, h.id);
}
