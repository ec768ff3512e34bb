//! Where a request carries its access token: the `Authorization: Bearer`
//! header of API calls, and the `Sec-WebSocket-Protocol: bearer, <jwt>`
//! header of socket upgrades (which keeps the token out of URLs and logs).

use vstd::prelude::*;
use vstd::string::{StrSliceExecFns, StringExecFns};

use crate::api_errors::{ApplicationError, ErrorDetail, InnerError, UNAUTHORIZED, INTERNAL_SERVER_ERROR};
use crate::jwt::Claims;
use crate::oauth_errors::{jwt_error_message, JwtError};
use crate::text::{split_char, split_on, str_eq, trim, trim_str, views};

verus! {

/// The subprotocol a socket client offers beside its token, and that the
/// server echoes back.
pub const BEARER_SUBPROTOCOL: &'static str = "bearer";

/// The prefix of an `Authorization` header that carries a bearer token.
pub const BEARER_PREFIX: &'static str = "Bearer ";

/// The token of a `Sec-WebSocket-Protocol` header: the header splits at
/// commas into exactly two pieces, the first of which trims to `bearer` and
/// the second to a token that is not empty.
pub open spec fn socket_bearer_spec(raw: Seq<char>) -> Option<Seq<char>> {
    let parts = split_on(raw, ',');
    if parts.len() == 2 && trim(parts[0]) == "bearer"@ && trim(parts[1]).len() > 0 {
        Some(trim(parts[1]))
    } else {
        None
    }
}

/// Reads the token out of a `Sec-WebSocket-Protocol` header value.
pub fn extract_bearer_token(raw: &str) -> (r: Option<String>)
    ensures
        match socket_bearer_spec(raw@) {
            Some(t) => r matches Some(s) && s@ == t,
            None => r is None,
        },
{
    let parts = split_char(raw, ',');
    if parts.len() != 2 {
        return None;
    }
    let scheme = trim_str(parts[0].as_str());
    let token = trim_str(parts[1].as_str());
    proof {
        assert(views(parts@)[0] == parts@[0]@);
        assert(views(parts@)[1] == parts@[1]@);
    }
    if !str_eq(scheme.as_str(), BEARER_SUBPROTOCOL) || token.as_str().unicode_len() == 0 {
        return None;
    }
    Some(token)
}

/// The token of an `Authorization` header: what follows `Bearer `, when that
/// is not empty.
pub open spec fn authorization_bearer_spec(h: Seq<char>) -> Option<Seq<char>> {
    if h.len() > 7 && h.take(7) == "Bearer "@ {
        Some(h.skip(7))
    } else {
        None
    }
}

/// Reads the token out of an `Authorization` header value.
pub fn bearer_from_authorization(h: &str) -> (r: Option<String>)
    ensures
        match authorization_bearer_spec(h@) {
            Some(t) => r matches Some(s) && s@ == t,
            None => r is None,
        },
{
    proof {
        reveal_strlit("Bearer ");
    }
    let n = h.unicode_len();
    if n <= 7 {
        return None;
    }
    let head = h.substring_char(0, 7);
    if !str_eq(head, BEARER_PREFIX) {
        assert(h@.subrange(0, 7) =~= h@.take(7));
        return None;
    }
    assert(h@.subrange(0, 7) =~= h@.take(7));
    let rest = h.substring_char(7, n);
    assert(h@.subrange(7, n as int) =~= h@.skip(7));
    Some(rest.to_owned())
}

/// `e` is the answer to a socket upgrade without a well-formed bearer
/// header: a 401 that says which header is expected.
pub open spec fn is_socket_auth_missing(e: ApplicationError) -> bool {
    &&& e.code == UNAUTHORIZED
    &&& e.message@ == "unauthorized"@
    &&& e.target@ == "sec-websocket-protocol"@
    &&& e.details@.len() == 1
    &&& e.details@[0].code == 4001
    &&& e.details@[0].target@ == "header"@
    &&& e.details@[0].message@ == "expected `Sec-WebSocket-Protocol: bearer, <jwt>`"@
    &&& e.innererror is None
}

/// `e` is the answer to a socket upgrade whose token check failed with
/// `err`: a 401 when the token library refused the token, else a 500 that
/// carries the failure's message.
pub open spec fn is_socket_auth_rejected(e: ApplicationError, err: JwtError) -> bool {
    if err is Jwt {
        e.code == UNAUTHORIZED && e.message@ == "unauthorized"@ && e.target@
            == "sec-websocket-protocol"@ && e.details@.len() == 0 && e.innererror is None
    } else {
        e.code == INTERNAL_SERVER_ERROR && e.message@ == "internal server error"@ && e.target@
            == "server"@ && e.details@.len() == 0 && (e.innererror matches Some(ctx)
            && ctx.trace_view() == seq![jwt_error_message(err)])
    }
}

/// The answer to a socket upgrade without a well-formed bearer header.
pub fn socket_auth_missing() -> (r: ApplicationError)
    ensures
        is_socket_auth_missing(r),
{
    ApplicationError::unauthorized(
        "unauthorized",
        "sec-websocket-protocol",
        vec![ErrorDetail::new(4001, "header", "expected `Sec-WebSocket-Protocol: bearer, <jwt>`")],
    )
}

/// The answer to a socket upgrade whose token was not accepted: a token the
/// token library refused is the caller's fault (401), any other failure is
/// the server's (500, with the failure's message).
pub fn socket_auth_rejected(err: &JwtError) -> (r: ApplicationError)
    ensures
        is_socket_auth_rejected(r, *err),
{
    match err {
        JwtError::Jwt(_) => ApplicationError::unauthorized("unauthorized", "sec-websocket-protocol", Vec::new()),
        _ => ApplicationError::internal_server_error("internal server error", "server", err.message()),
    }
}

/// Why an API call was refused at the door: no usable bearer header, or a
/// token that did not check out, with the reason.
#[derive(Debug, Clone)]
pub enum AuthError {
    Missing,
    Invalid(String),
}

/// The message of an authentication failure.
pub open spec fn auth_error_message(e: AuthError) -> Seq<char> {
    match e {
        AuthError::Missing => "expected `Authorization: Bearer <jwt>`"@,
        AuthError::Invalid(m) => "invalid: "@ + m@,
    }
}

impl AuthError {
    /// The message of the failure.
    pub fn message(&self) -> (r: String)
        ensures
            r@ == auth_error_message(*self),
    {
        match self {
            AuthError::Missing => String::from_str("expected `Authorization: Bearer <jwt>`"),
            AuthError::Invalid(m) => {
                let mut r = String::from_str("invalid: ");
                r.append(m.as_str());
                r
            },
        }
    }

    /// The body a refused API call is answered with: a 401 whose context is
    /// the failure's message.
    pub fn body(&self) -> (r: ApplicationError)
        ensures
            r.code == UNAUTHORIZED,
            r.message@ == "unauthorized"@,
            r.target@ == "header"@,
            r.details@.len() == 0,
            r.innererror matches Some(ctx) && ctx.trace_view() == seq![auth_error_message(*self)],
    {
        ApplicationError::new(UNAUTHORIZED, "unauthorized", "header", Vec::new(), Some(InnerError::new(self.message())))
    }
}

/// Takes the bearer token of an API call, or says why there is none.
pub fn require_bearer(authorization: Option<&str>) -> (r: Result<String, AuthError>)
    ensures
        match authorization {
            Some(h) => match authorization_bearer_spec(h@) {
                Some(t) => r matches Ok(s) && s@ == t,
                None => r matches Err(e) && e is Missing,
            },
            None => r matches Err(e) && e is Missing,
        },
{
    match authorization {
        None => Err(AuthError::Missing),
        Some(h) => match bearer_from_authorization(h) {
            Some(t) => Ok(t),
            None => Err(AuthError::Missing),
        },
    }
}

/// The token of a socket upgrade, read from its `Sec-WebSocket-Protocol`
/// header; refused with a 401 when the header is missing or malformed.
pub fn socket_token(header: Option<&str>) -> (r: Result<String, ApplicationError>)
    ensures
        match header {
            Some(h) => match socket_bearer_spec(h@) {
                Some(t) => r matches Ok(s) && s@ == t,
                None => r matches Err(e) && is_socket_auth_missing(e),
            },
            None => r matches Err(e) && is_socket_auth_missing(e),
        },
{
    match header {
        None => Err(socket_auth_missing()),
        Some(h) => match extract_bearer_token(h) {
            Some(t) => Ok(t),
            None => Err(socket_auth_missing()),
        },
    }
}

/// The claims of a socket upgrade, from the outcome of checking its token.
pub fn socket_claims(checked: Result<Claims, JwtError>) -> (r: Result<Claims, ApplicationError>)
    ensures
        match checked {
            Ok(c) => r == Ok::<Claims, ApplicationError>(c),
            Err(err) => r matches Err(e) && is_socket_auth_rejected(e, err),
        },
{
    match checked {
        Ok(c) => Ok(c),
        Err(err) => Err(socket_auth_rejected(&err)),
    }
}

} // verus!
