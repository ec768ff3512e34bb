use hermes::{
    access_claims, avatar_url, bearer_from_authorization, check_session_secret, check_turnstile,
    compute_jwk_thumbprint, extract_bearer_token, invalid_credentials, jwk_of, login_decision,
    refresh_claims,
    remote_ip_missing, render_auth_page, require_bearer, resource_audience, server_endpoints,
    socket_auth_missing, socket_auth_rejected, socket_claims, socket_token, turnstile_refused,
    turnstile_unavailable, user_already_exists, validate_env, ApplicationError, AuthError,
    AuthPageError, Claims, JwtError, Metadata, SessionError, SessionRegistry, TurnstileError,
    TurnstileResponse, ACCESS_TOKEN_LIFETIME, REFRESH_TOKEN_LIFETIME,
};

#[test]
fn socket_bearer_header() {
    assert_eq!(extract_bearer_token("bearer, abc.def.ghi").as_deref(), Some("abc.def.ghi"));
    assert_eq!(extract_bearer_token("  bearer ,\ttok \u{a0}").as_deref(), Some("tok"));
    assert_eq!(extract_bearer_token("bearer"), None);
    assert_eq!(extract_bearer_token("bearer, "), None);
    assert_eq!(extract_bearer_token("Bearer, tok"), None);
    assert_eq!(extract_bearer_token("bearer, tok, extra"), None);
    assert_eq!(extract_bearer_token(""), None);
}

#[test]
fn authorization_header() {
    assert_eq!(bearer_from_authorization("Bearer abc").as_deref(), Some("abc"));
    assert_eq!(bearer_from_authorization("Bearer "), None);
    assert_eq!(bearer_from_authorization("bearer abc"), None);
    assert_eq!(bearer_from_authorization("Basic abc"), None);
    assert_eq!(require_bearer(Some("Bearer  x")).unwrap(), " x");
    assert!(matches!(require_bearer(None), Err(AuthError::Missing)));
}

#[test]
fn auth_failures_are_401s() {
    let body = AuthError::Missing.body();
    assert_eq!((body.code, body.message.as_str(), body.target.as_str()), (401, "unauthorized", "header"));
    assert_eq!(body.innererror.unwrap().trace(), &vec!["expected `Authorization: Bearer <jwt>`".to_string()]);
    let body = AuthError::Invalid("ExpiredSignature".to_string()).body();
    assert_eq!(body.innererror.unwrap().trace(), &vec!["invalid: ExpiredSignature".to_string()]);
    let e = socket_auth_missing();
    assert_eq!((e.code, e.target.as_str()), (401, "sec-websocket-protocol"));
    assert_eq!(e.details[0].message, "expected `Sec-WebSocket-Protocol: bearer, <jwt>`");
    let e = socket_auth_rejected(&JwtError::Jwt("bad signature".to_string()));
    assert_eq!(e.code, 401);
    assert!(e.details.is_empty());
    let e = socket_auth_rejected(&JwtError::KeysUninitialized);
    assert_eq!((e.code, e.message.as_str()), (500, "internal server error"));
    assert_eq!(e.innererror.unwrap().trace(), &vec!["JWT signing keys have not been initialized".to_string()]);
    assert_eq!(socket_token(Some("bearer, t")).unwrap(), "t");
    assert_eq!(socket_token(None).unwrap_err().code, 401);
    assert_eq!(socket_claims(Err(JwtError::Jwt("x".to_string()))).unwrap_err().code, 401);
}

#[test]
fn socket_claims_pass_through() {
    let c = Claims {
        iss: "i".to_string(),
        aud: "a".to_string(),
        sub: 1,
        client_id: 0,
        jti: 2,
        iat: 3,
        exp: 4,
        scope: None,
    };
    assert_eq!(socket_claims(Ok(c)).unwrap().jti, 2);
}

#[test]
fn token_claims() {
    let c = access_claims("http://localhost:5000/", 5, 0, 9, 100, Some("profile".to_string()));
    assert_eq!(c.aud, "http://localhost:5000/api");
    assert_eq!(c.iss, "http://localhost:5000/");
    assert_eq!(c.exp, 100 + ACCESS_TOKEN_LIFETIME);
    assert_eq!(c.scope.as_deref(), Some("profile"));
    assert_eq!(resource_audience("https://hermes.example//"), "https://hermes.example/api");
    let r = refresh_claims("iss", 0, 5, 9, 100, None);
    assert_eq!((r.aud, r.sub, r.jti, r.exp), (0, 5, 9, 100 + REFRESH_TOKEN_LIFETIME));
    let e = server_endpoints("http://localhost:5000");
    assert_eq!(e.authorization_endpoint, "http://localhost:5000/auth/authorize");
    assert_eq!(e.token_endpoint, "http://localhost:5000/auth/token");
    assert_eq!(e.revocation_endpoint, "http://localhost:5000/auth/revoke");
    assert_eq!(e.jwks_uri, "http://localhost:5000/.well-known/jwks.json");
}

#[test]
fn key_thumbprint_matches_rfc_8037() {
    let pk: [u8; 32] = [
        0xd7, 0x5a, 0x98, 0x01, 0x82, 0xb1, 0x0a, 0xb7, 0xd5, 0x4b, 0xfe, 0xd3, 0xc9, 0x64, 0x07, 0x3a,
        0x0e, 0xe1, 0x72, 0xf3, 0xda, 0xa6, 0x23, 0x25, 0xaf, 0x02, 0x1a, 0x68, 0xf7, 0x07, 0x51, 0x1a,
    ];
    let kid = compute_jwk_thumbprint(&pk);
    assert_eq!(kid, "kPrK_qmxVWaYVA9wwBF6Iuo3vVzz7TxHCTwXBygrS4k");
    let jwk = jwk_of(&pk, &kid);
    assert_eq!(jwk.x, "11qYAYKxCrfVS_7TyWQHOg7hcvPapiMlrwIaaPcHURo");
    assert_eq!((jwk.kty.as_str(), jwk.crv.as_str(), jwk.use_.as_str(), jwk.alg.as_str()), ("OKP", "Ed25519", "sig", "EdDSA"));
    assert_eq!(jwk.kid, kid);
}

fn failed() -> TurnstileResponse {
    TurnstileResponse::Error { success: false, error_codes: vec!["invalid-input-response".to_string(), "timeout-or-duplicate".to_string()] }
}

fn passed() -> TurnstileResponse {
    TurnstileResponse::Passed {
        success: true,
        challenge_ts: "2024-01-01T00:00:00Z".to_string(),
        hostname: "hermes".to_string(),
        error_codes: vec![],
        action: "login".to_string(),
        cdata: String::new(),
        metadata: Metadata { ephemeral_id: "x".to_string() },
    }
}

#[test]
fn turnstile_verdicts() {
    assert!(failed().is_err());
    assert!(!passed().is_err());
    assert!(check_turnstile(passed()).is_ok());
    match check_turnstile(failed()) {
        Err(TurnstileError::Verify(r)) => assert_eq!(r.error_codes().len(), 2),
        other => panic!("unexpected {:?}", other),
    }
    assert_eq!(TurnstileError::Request("dns".to_string()).message(), "network error");
}

fn request_error(e: AuthPageError) -> ApplicationError {
    match e {
        AuthPageError::Request(r) => r,
        other => panic!("unexpected {:?}", other),
    }
}

#[test]
fn account_page_answers() {
    let e = request_error(turnstile_refused(failed().error_codes()));
    assert_eq!((e.code, e.message.as_str()), (403, "turnstile error"));
    assert_eq!(e.details.len(), 2);
    assert_eq!((e.details[1].code, e.details[1].message.as_str()), (4001, "timeout-or-duplicate"));
    let e = request_error(invalid_credentials());
    assert_eq!((e.code, e.details[0].code), (400, 404));
    let e = request_error(user_already_exists());
    assert_eq!((e.code, e.details[0].code), (400, 405));
    let e = request_error(remote_ip_missing());
    assert_eq!(e.innererror.unwrap().trace(), &vec!["failed to fetch remote ip".to_string()]);
    let e = request_error(turnstile_unavailable(&TurnstileError::MissingEnv("x".to_string())));
    assert_eq!(e.innererror.unwrap().trace(), &vec!["failed to get env var".to_string()]);
    let body = AuthPageError::DbError("locked".to_string()).get_body();
    assert_eq!((body.code, body.message.as_str()), (500, "Internal Server Error: code (2255)"));
    let body = AuthPageError::Argon("bad hash".to_string()).get_body();
    assert_eq!(body.message, "Internal Server Error: code (2257)");
    assert_eq!(AuthPageError::MailBoxError("x".to_string()).status_code(), 500);
    let req = invalid_credentials();
    assert_eq!(req.status_code(), 400);
    let body = req.get_body();
    assert_eq!(body.message, "username or password is invalid");
}

#[test]
fn pages_and_avatars() {
    let page = render_auth_page(
        "<input name=\"{CSRF_TOKEN_FIELD}\" value=\"{CSRF_TOKEN_VALUE}\"><div data-key=\"{RECAPTCHA_SITE_KEY}\">{CSRF_TOKEN_VALUE}",
        "csrf",
        "tok",
        "site",
    );
    assert_eq!(page, "<input name=\"csrf\" value=\"tok\"><div data-key=\"site\">tok");
    assert_eq!(
        avatar_url("alice"),
        "https://api.dicebear.com/9.x/rings/svg?seed=alice&backgroundType=gradientLinear&backgroundColor=b6e3f4,c0aede,d1d4f9"
    );
}

#[test]
fn startup_checks() {
    assert_eq!(validate_env(false, false, false).unwrap_err(), "SERVER_ORIGIN is not set");
    assert!(validate_env(true, false, true).unwrap_err().starts_with("JWT_PRIVATE_KEY_PATH is not set"));
    assert_eq!(
        validate_env(true, true, false).unwrap_err(),
        "SESSION_SECRET is not set (must be a 64-byte hex or base64 string)"
    );
    assert!(validate_env(true, true, true).is_ok());
    assert_eq!(check_session_secret("short").unwrap_err(), "SESSION_SECRET must be at least 64 bytes (got 5)");
    assert_eq!(check_session_secret("").unwrap_err(), "SESSION_SECRET must be at least 64 bytes (got 0)");
    assert_eq!(check_session_secret(&"é".repeat(20)).unwrap_err(), "SESSION_SECRET must be at least 64 bytes (got 40)");
    assert!(check_session_secret(&"k".repeat(64)).is_ok());
}

#[test]
fn registry_tracks_connections() {
    let mut reg = SessionRegistry::new();
    assert_eq!(reg.is_online(1), Ok(false));
    assert_eq!(reg.send_to(1), Err(SessionError::NoConns));
    reg.register_conn(10, 1);
    reg.register_conn(11, 1);
    reg.register_conn(20, 2);
    assert_eq!(reg.is_online(1), Ok(true));
    assert_eq!(reg.send_to(1), Ok(vec![10, 11]));
    assert_eq!(reg.broadcast(&[2, 1, 3]), Ok(vec![20, 10, 11]));
    reg.unregister(10).unwrap();
    assert_eq!(reg.send_to(1), Ok(vec![11]));
    reg.unregister(11).unwrap();
    assert_eq!(reg.is_online(1), Ok(false));
    assert_eq!(reg.send_to(1), Err(SessionError::NoConns));
    // unregistering twice is harmless
    reg.unregister(11).unwrap();
    let id = reg.register(3).unwrap();
    assert_eq!(reg.send_to(3), Ok(vec![id]));
}

#[test]
fn registry_tracks_voice_channels() {
    let mut reg = SessionRegistry::new();
    assert_eq!(reg.voice_members(7), Ok(vec![]));
    reg.join_voice(7, 1).unwrap();
    reg.join_voice(7, 2).unwrap();
    reg.join_voice(7, 3).unwrap();
    reg.join_voice(7, 1).unwrap();
    assert_eq!(reg.voice_members(7), Ok(vec![1, 2, 3]));
    // the last member takes the place of one who leaves
    reg.leave_voice(7, 1).unwrap();
    assert_eq!(reg.voice_members(7), Ok(vec![3, 2]));
    reg.leave_voice(7, 9).unwrap();
    assert_eq!(reg.voice_members(7), Ok(vec![3, 2]));
    reg.leave_voice(7, 3).unwrap();
    reg.leave_voice(7, 2).unwrap();
    assert_eq!(reg.voice_members(7), Ok(vec![]));
    reg.leave_voice(8, 2).unwrap();
}

#[test]
fn registration_failures_are_500s() {
    assert_eq!(SessionError::NoConns.message(), "no connections available");
    let e = SessionError::Lock.registration_failed();
    assert_eq!(e.code, 500);
    assert_eq!(e.innererror.unwrap().trace(), &vec!["lock error".to_string()]);
}

#[test]
fn list_messages_requires_a_bearer_token() {
    let err = require_bearer(None).unwrap_err();
    assert_eq!(err.body().code, 401);
}

#[test]
fn create_invite_requires_a_bearer_token() {
    let err = require_bearer(Some("Token abc")).unwrap_err();
    assert_eq!(err.body().code, 401);
}

fn page_view(e: AuthPageError) -> (u16, String, String, Vec<(u16, String, String)>, bool) {
    let r = request_error(e);
    let details = r.details.iter().map(|d| (d.code, d.target.clone(), d.message.clone())).collect();
    (r.code, r.message, r.target, details, r.innererror.is_some())
}

#[test]
fn login_reveals_nothing_of_the_account() {
    assert_eq!(login_decision(Some(7), true).unwrap(), 7);
    let unknown = page_view(login_decision(None, true).unwrap_err());
    let unknown_wrong = page_view(login_decision(None, false).unwrap_err());
    let wrong_password = page_view(login_decision(Some(7), false).unwrap_err());
    assert_eq!(unknown, wrong_password);
    assert_eq!(unknown, unknown_wrong);
    assert_eq!(unknown.0, 400);
    assert_eq!(unknown.1, "username or password is invalid");
    assert_eq!(unknown.2, "body");
    assert_eq!(unknown.3, vec![(404, "body".to_string(), "invalid username or password".to_string())]);
    assert!(!unknown.4);
}

#[test]
fn unregistering_the_last_connection_takes_the_user_offline() {
    let mut reg = SessionRegistry::new();
    let id = reg.register(1).unwrap();
    assert_eq!(reg.is_online(1), Ok(true));
    assert_eq!(reg.unregister(id), Ok(()));
    assert_eq!(reg.is_online(1), Ok(false));
    assert_eq!(reg.send_to(1), Err(SessionError::NoConns));
    // an id that is not open changes nothing
    reg.register_conn(10, 2);
    assert_eq!(reg.unregister(99), Ok(()));
    assert_eq!(reg.send_to(2), Ok(vec![10]));
}

#[test]
fn a_reused_connection_id_moves_to_its_new_user() {
    let mut reg = SessionRegistry::new();
    reg.register_conn(10, 1);
    reg.register_conn(10, 2);
    assert_eq!(reg.is_online(1), Ok(false));
    assert_eq!(reg.send_to(2), Ok(vec![10]));
}

#[test]
fn failed_deliveries_are_dropped() {
    let mut reg = SessionRegistry::new();
    reg.register_conn(10, 1);
    reg.register_conn(11, 1);
    reg.register_conn(20, 2);
    let targets = reg.broadcast(&[1, 2]).unwrap();
    assert_eq!(targets, vec![10, 11, 20]);
    assert_eq!(reg.drop_failed(&[11, 20]), Ok(()));
    assert_eq!(reg.broadcast(&[1, 2]), Ok(vec![10]));
    assert_eq!(reg.is_online(2), Ok(false));
}
