use ed25519_dalek::pkcs8::spki::der::pem::LineEnding;
use ed25519_dalek::pkcs8::EncodePrivateKey;
use hermes::{
    access_claims, check_access_claims, check_access_claims_now, check_refresh_claims,
    check_refresh_claims_now, compute_jwk_thumbprint, public_key_of_pem, refresh_claims,
    sign_compact_token, verify_compact_token, Claims, JwtError, RefreshClaims, OAUTH_CLIENT_ID,
};

const ISS: &str = "http://localhost:5000";

/// A deterministic PKCS#8 PEM for an Ed25519 test key, made at run time.
fn test_pem() -> String {
    let signing = ed25519_dalek::SigningKey::from_bytes(&[42u8; 32]);
    signing.to_pkcs8_pem(LineEnding::LF).expect("to_pkcs8_pem").to_string()
}

fn now() -> i64 {
    std::time::SystemTime::now().duration_since(std::time::UNIX_EPOCH).unwrap().as_secs() as i64
}

fn uuid_text(id: u128) -> String {
    uuid::Uuid::from_u128(id).to_string()
}

fn sign(pem: &str, typ: &str, kid: &str, payload: &str) -> String {
    sign_compact_token(typ, kid, payload.as_bytes(), pem).unwrap()
}

/// The same token made by `jsonwebtoken` itself.
fn sign_with_jsonwebtoken(pem: &str, typ: &str, kid: &str, payload: &str) -> String {
    let mut header = jsonwebtoken::Header::new(jsonwebtoken::Algorithm::EdDSA);
    header.typ = Some(typ.to_string());
    header.kid = Some(kid.to_string());
    let claims: serde_json::Value = serde_json::from_str(payload).unwrap();
    let key = jsonwebtoken::EncodingKey::from_ed_pem(pem.as_bytes()).unwrap();
    jsonwebtoken::encode(&header, &claims, &key).unwrap()
}

fn access_json(c: &Claims) -> String {
    let scope = match &c.scope {
        Some(s) => format!(",\"scope\":\"{}\"", s),
        None => String::new(),
    };
    format!(
        "{{\"iss\":\"{}\",\"aud\":\"{}\",\"sub\":\"{}\",\"client_id\":\"{}\",\"jti\":\"{}\",\"iat\":{},\"exp\":{}{}}}",
        c.iss,
        c.aud,
        uuid_text(c.sub),
        uuid_text(c.client_id),
        uuid_text(c.jti),
        c.iat,
        c.exp,
        scope
    )
}

fn refresh_json(c: &RefreshClaims) -> String {
    let scope = match &c.scope {
        Some(s) => format!(",\"scope\":\"{}\"", s),
        None => String::new(),
    };
    format!(
        "{{\"iss\":\"{}\",\"aud\":\"{}\",\"sub\":\"{}\",\"exp\":{},\"iat\":{},\"jti\":\"{}\"{}}}",
        c.iss,
        uuid_text(c.aud),
        uuid_text(c.sub),
        c.exp,
        c.iat,
        uuid_text(c.jti),
        scope
    )
}

fn field<'a>(v: &'a serde_json::Value, name: &str) -> &'a serde_json::Value {
    v.get(name).unwrap()
}

fn uuid_field(v: &serde_json::Value, name: &str) -> u128 {
    uuid::Uuid::parse_str(field(v, name).as_str().unwrap()).unwrap().as_u128()
}

fn read_access(payload: &[u8]) -> Claims {
    let v: serde_json::Value = serde_json::from_slice(payload).unwrap();
    Claims {
        iss: field(&v, "iss").as_str().unwrap().to_string(),
        aud: field(&v, "aud").as_str().unwrap().to_string(),
        sub: uuid_field(&v, "sub"),
        client_id: uuid_field(&v, "client_id"),
        jti: uuid_field(&v, "jti"),
        iat: field(&v, "iat").as_i64().unwrap(),
        exp: field(&v, "exp").as_i64().unwrap(),
        scope: v.get("scope").map(|s| s.as_str().unwrap().to_string()),
    }
}

fn read_refresh(payload: &[u8]) -> RefreshClaims {
    let v: serde_json::Value = serde_json::from_slice(payload).unwrap();
    RefreshClaims {
        iss: field(&v, "iss").as_str().unwrap().to_string(),
        aud: uuid_field(&v, "aud"),
        sub: uuid_field(&v, "sub"),
        exp: field(&v, "exp").as_i64().unwrap(),
        iat: field(&v, "iat").as_i64().unwrap(),
        jti: uuid_field(&v, "jti"),
        scope: v.get("scope").map(|s| s.as_str().unwrap().to_string()),
    }
}

fn jwt_message(e: JwtError) -> String {
    match e {
        JwtError::Jwt(m) => m,
        other => panic!("unexpected {:?}", other),
    }
}

const USER: u128 = 0x0000_0000_0000_0000_1000_0000_0000_0000;

#[test]
fn test_create_and_validate_jwt() {
    let pem = test_pem();
    let (public, kid) = public_key_of_pem(&pem).expect("key");
    let claims = access_claims(ISS, USER, OAUTH_CLIENT_ID, 77, now(), Some("profile offline_access".to_string()));
    let jwt = sign(&pem, "at+jwt", &kid, &access_json(&claims));

    let decoded = verify_compact_token(&jwt, &public).expect("failed to validate jwt");
    let c = read_access(&decoded.payload);
    check_access_claims_now(&c, ISS).expect("claims accepted");
    assert_eq!(c.sub, USER);
    assert_eq!(c.client_id, OAUTH_CLIENT_ID);
    assert_eq!(c.aud, "http://localhost:5000/api");
    assert_eq!(c.scope.as_deref(), Some("profile offline_access"));
    assert_eq!(decoded.header.typ.as_deref(), Some("at+jwt"));
    assert!(decoded.header.kid.is_some());
    assert_eq!(decoded.header.alg, "EdDSA");
}

#[test]
fn test_create_and_validate_refresh_jwt() {
    let pem = test_pem();
    let (public, kid) = public_key_of_pem(&pem).expect("key");
    let issued = refresh_claims(ISS, OAUTH_CLIENT_ID, USER, 78, now(), Some("offline_access".to_string()));
    let token = sign(&pem, "rt+jwt", &kid, &refresh_json(&issued));

    let data = verify_compact_token(&token, &public).expect("failed to validate token");
    let c = read_refresh(&data.payload);
    check_refresh_claims_now(&c, ISS).expect("claims accepted");
    assert_eq!(c.sub, USER);
    assert_eq!(c.scope.as_deref(), Some("offline_access"));
}

#[test]
fn the_signing_key_publishes_its_public_half() {
    let pem = test_pem();
    let (public, kid) = public_key_of_pem(&pem).expect("key");
    let expected = ed25519_dalek::SigningKey::from_bytes(&[42u8; 32]).verifying_key().to_bytes();
    assert_eq!(public, expected);
    assert_eq!(kid, compute_jwk_thumbprint(&public));
    match public_key_of_pem("not a key") {
        Err(JwtError::KeyLoad(m)) => assert!(m.starts_with("invalid PKCS#8 Ed25519 PEM: ")),
        other => panic!("unexpected {:?}", other),
    }
}

#[test]
fn tokens_that_do_not_check_out() {
    let pem = test_pem();
    let (public, kid) = public_key_of_pem(&pem).expect("key");
    let claims = access_claims(ISS, USER, OAUTH_CLIENT_ID, 77, now(), None);
    let jwt = sign(&pem, "at+jwt", &kid, &access_json(&claims));

    assert_eq!(jwt_message(verify_compact_token("no-dots", &public).err().unwrap()), "InvalidToken");
    assert_eq!(jwt_message(verify_compact_token("one.dot", &public).err().unwrap()), "InvalidToken");
    let e = jwt_message(verify_compact_token("!!.e30.sig", &public).err().unwrap());
    assert!(e.starts_with("Base64 error: "), "{e}");
    // `{}` is no header: `alg` is missing
    let e = jwt_message(verify_compact_token("e30.e30.sig", &public).err().unwrap());
    assert!(e.starts_with("JSON error: "), "{e}");
    // {"alg":"HS256"}
    let e = jwt_message(verify_compact_token("eyJhbGciOiJIUzI1NiJ9.e30.sig", &public).err().unwrap());
    assert_eq!(e, "InvalidAlgorithm");

    // another payload under the same signature
    let parts: Vec<&str> = jwt.split('.').collect();
    let forged = format!("{}.e30.{}", parts[0], parts[2]);
    assert_eq!(jwt_message(verify_compact_token(&forged, &public).err().unwrap()), "InvalidSignature");
    // another key
    let other = ed25519_dalek::SigningKey::from_bytes(&[7u8; 32]).verifying_key().to_bytes();
    assert_eq!(jwt_message(verify_compact_token(&jwt, &other).err().unwrap()), "InvalidSignature");
    // a signature that is not base64url
    let bad_sig = format!("{}.{}.!!", parts[0], parts[1]);
    let e = jwt_message(verify_compact_token(&bad_sig, &public).err().unwrap());
    assert!(e.starts_with("Base64 error: "), "{e}");
    // the genuine token passes
    assert!(verify_compact_token(&jwt, &public).is_ok());
}

#[test]
fn claims_checks_in_order() {
    let c = access_claims(ISS, USER, OAUTH_CLIENT_ID, 77, 1_000, None);
    let at = |c: &Claims, now: i64| check_access_claims(c, ISS, now).err().map(jwt_message);
    assert_eq!(at(&c, 1_000), None);
    // the expiry has a minute's leeway
    assert_eq!(at(&c, c.exp + 60), None);
    assert_eq!(at(&c, c.exp + 61).as_deref(), Some("ExpiredSignature"));
    let mut other = c.clone();
    other.iss = "http://elsewhere".to_string();
    assert_eq!(at(&other, 1_000).as_deref(), Some("InvalidIssuer"));
    let mut other = c.clone();
    other.aud = "http://localhost:5000".to_string();
    assert_eq!(at(&other, 1_000).as_deref(), Some("InvalidAudience"));
    let mut other = c.clone();
    other.exp = -1;
    other.iss = "http://elsewhere".to_string();
    assert_eq!(at(&other, 1_000).as_deref(), Some("Missing required claim: exp"));

    let r = refresh_claims(ISS, OAUTH_CLIENT_ID, USER, 78, 1_000, None);
    assert!(check_refresh_claims(&r, ISS, 1_000).is_ok());
    let mut other = r.clone();
    other.aud = 5;
    assert_eq!(jwt_message(check_refresh_claims(&other, ISS, 1_000).unwrap_err()), "InvalidAudience");
    assert_eq!(
        jwt_message(check_refresh_claims(&r, ISS, r.exp + 61).unwrap_err()),
        "ExpiredSignature"
    );
}

#[test]
fn tokens_agree_with_jsonwebtoken() {
    let pem = test_pem();
    let (public, kid) = public_key_of_pem(&pem).expect("key");
    let claims = access_claims(ISS, USER, OAUTH_CLIENT_ID, 77, 1_000, None);
    let json = access_json(&claims);
    // Ed25519 signatures are deterministic, and both write the header with
    // the same serializer: the two tokens coincide
    let payload = serde_json::to_vec(&serde_json::from_str::<serde_json::Value>(&json).unwrap()).unwrap();
    let ours = sign_compact_token("at+jwt", &kid, &payload, &pem).unwrap();
    let theirs = sign_with_jsonwebtoken(&pem, "at+jwt", &kid, &json);
    assert_eq!(ours, theirs);
    let v = verify_compact_token(&theirs, &public).unwrap();
    assert_eq!(v.payload, payload);
    let mut decoding = jsonwebtoken::Validation::new(jsonwebtoken::Algorithm::EdDSA);
    decoding.validate_exp = false;
    decoding.validate_aud = false;
    let key = jsonwebtoken::DecodingKey::from_ed_der(&public);
    let data = jsonwebtoken::decode::<serde_json::Value>(&ours, &key, &decoding).unwrap();
    assert_eq!(data.header.typ.as_deref(), Some("at+jwt"));
    assert_eq!(data.header.kid.as_deref(), Some(kid.as_str()));
}
