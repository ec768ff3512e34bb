//! What the server checks of its configuration before it listens.

use vstd::prelude::*;
use vstd::string::{StrSliceExecFns, StringExecFns};

use crate::text::{decimal, push_decimal, utf8_len};

verus! {

/// Names the server's base OpenAPI document. It is a unit type: the
/// document's metadata and paths are produced by `utoipa`'s derive and route
/// annotations, which belong to the application around the library, so the
/// library's part is the name alone.
pub struct ApiDoc;

/// The fewest bytes a session secret may have.
pub const SESSION_SECRET_MIN_BYTES: usize = 64;

/// The first setting that is missing, in the order they are checked.
pub open spec fn env_problem(origin_set: bool, key_path_set: bool, secret_set: bool) -> Option<Seq<char>> {
    if !origin_set {
        Some("SERVER_ORIGIN is not set"@)
    } else if !key_path_set {
        Some(
            "JWT_PRIVATE_KEY_PATH is not set (path to a PKCS#8 PEM Ed25519 private key; generate one with: `openssl genpkey -algorithm ed25519 -out ed25519.pem`)"@,
        )
    } else if !secret_set {
        Some("SESSION_SECRET is not set (must be a 64-byte hex or base64 string)"@)
    } else {
        None
    }
}

/// Refuses to start without the settings that security rests on: the
/// server's origin, the path of its signing key and the session secret.
pub fn validate_env(origin_set: bool, key_path_set: bool, secret_set: bool) -> (r: Result<(), String>)
    ensures
        match env_problem(origin_set, key_path_set, secret_set) {
            None => r is Ok,
            Some(m) => r matches Err(s) && s@ == m,
        },
{
    if !origin_set {
        return Err(String::from_str("SERVER_ORIGIN is not set"));
    }
    if !key_path_set {
        return Err(
            String::from_str(
                "JWT_PRIVATE_KEY_PATH is not set (path to a PKCS#8 PEM Ed25519 private key; generate one with: `openssl genpkey -algorithm ed25519 -out ed25519.pem`)",
            ),
        );
    }
    if !secret_set {
        return Err(String::from_str("SESSION_SECRET is not set (must be a 64-byte hex or base64 string)"));
    }
    Ok(())
}

/// Accepts a session secret of at least 64 bytes; a shorter one is refused
/// with its length.
pub fn check_session_secret(raw: &str) -> (r: Result<(), String>)
    ensures
        utf8_len(raw@) >= 64 ==> r is Ok,
        utf8_len(raw@) < 64 ==> (r matches Err(s) && s@ == "SESSION_SECRET must be at least 64 bytes (got "@
            + decimal(utf8_len(raw@)) + ")"@),
{
    let n = raw.as_bytes().len();
    if n < SESSION_SECRET_MIN_BYTES {
        let mut msg = String::from_str("SESSION_SECRET must be at least 64 bytes (got ");
        push_decimal(&mut msg, n);
        msg.append(")");
        return Err(msg);
    }
    Ok(())
}

} // verus!
