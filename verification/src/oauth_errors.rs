//! The error taxonomy of the OAuth endpoints (RFC 6749 §4.1.2.1 and §5.2).

use vstd::prelude::*;
use vstd::string::StringExecFns;

use crate::api_errors::{ApplicationError, ErrorDetail, InnerError, BAD_REQUEST, INTERNAL_SERVER_ERROR};

verus! {

/// Failures of token signing and checking, each outside failure reduced to
/// its message.
#[derive(Debug, Clone)]
pub enum JwtError {
    /// An environment variable was missing, with the failure's message.
    Var(String),
    /// The token library refused a token, with its message.
    Jwt(String),
    /// The signing keys were used before they were loaded.
    KeysUninitialized,
    /// The signing key could not be loaded, with the reason.
    KeyLoad(String),
}

/// The message of a token failure.
pub open spec fn jwt_error_message(e: JwtError) -> Seq<char> {
    match e {
        JwtError::Var(m) => m@,
        JwtError::Jwt(m) => m@,
        JwtError::KeysUninitialized => "JWT signing keys have not been initialized"@,
        JwtError::KeyLoad(m) => "failed to load JWT signing key: "@ + m@,
    }
}

impl JwtError {
    /// The message of the failure.
    pub fn message(&self) -> (r: String)
        ensures
            r@ == jwt_error_message(*self),
    {
        match self {
            JwtError::Var(m) => m.clone(),
            JwtError::Jwt(m) => m.clone(),
            JwtError::KeysUninitialized => String::from_str("JWT signing keys have not been initialized"),
            JwtError::KeyLoad(m) => {
                let mut r = String::from_str("failed to load JWT signing key: ");
                r.append(m.as_str());
                r
            },
        }
    }
}

/// Every way an OAuth request can fail. Failures of outside services carry
/// their message.
#[derive(Debug, Clone)]
pub enum OAuthErrorType {
    MissingRefreshToken,
    MalformedRefreshToken,
    MalformedCode,
    MalformedCodeVerifier,
    InvalidRedirect,
    InvalidRequest,
    AccessDenied,
    InvalidClientId,
    InvalidCodeGrant,
    UnsupportedCodeChallengeMethod,
    InvalidCodeChallenge,
    InvalidScope,
    Session(String),
    EnvVar(String),
    UrlParse(String),
    Db(String),
    Jwt(JwtError),
    Uuid(String),
    UnsupportedGrantType,
}

/// The RFC 6749 error code reported for `t`.
pub open spec fn error_name(t: OAuthErrorType) -> Seq<char> {
    match t {
        OAuthErrorType::UnsupportedGrantType => "unsupported_grant_type"@,
        OAuthErrorType::EnvVar(_) | OAuthErrorType::UrlParse(_) | OAuthErrorType::Db(_)
        | OAuthErrorType::Session(_) | OAuthErrorType::Uuid(_) => "server_error"@,
        OAuthErrorType::Jwt(e) => match e {
            JwtError::Jwt(_) => "invalid_request"@,
            _ => "server_error"@,
        },
        OAuthErrorType::InvalidRedirect | OAuthErrorType::InvalidRequest
        | OAuthErrorType::MissingRefreshToken | OAuthErrorType::UnsupportedCodeChallengeMethod
        | OAuthErrorType::InvalidCodeChallenge | OAuthErrorType::MalformedCodeVerifier
        | OAuthErrorType::MalformedCode | OAuthErrorType::MalformedRefreshToken => "invalid_request"@,
        OAuthErrorType::InvalidScope => "invalid_scope"@,
        OAuthErrorType::AccessDenied => "access_denied"@,
        OAuthErrorType::InvalidClientId => "invalid_client"@,
        OAuthErrorType::InvalidCodeGrant => "invalid_grant"@,
    }
}

/// The human-readable description reported for `t`; failures of outside
/// services are not described beyond "Internal Server Error".
pub open spec fn error_description(t: OAuthErrorType) -> Seq<char> {
    match t {
        OAuthErrorType::MissingRefreshToken => "The provided refresh token was invalid"@,
        OAuthErrorType::MalformedRefreshToken => "The provided refresh token was malformed"@,
        OAuthErrorType::MalformedCode => "The provided code was malformed"@,
        OAuthErrorType::MalformedCodeVerifier => "The provided code verifier was malformed"@,
        OAuthErrorType::InvalidRedirect => "the provided redirect URI is invalid"@,
        OAuthErrorType::InvalidRequest => "The request is missing a required parameter or is otherwise malformed"@,
        OAuthErrorType::AccessDenied => "The resource owner denied the request"@,
        OAuthErrorType::InvalidClientId => "The provided client id was invalid"@,
        OAuthErrorType::InvalidCodeGrant => "The provided code grant is not supported"@,
        OAuthErrorType::UnsupportedCodeChallengeMethod => "The provided challenge method is not supported"@,
        OAuthErrorType::InvalidCodeChallenge => "The provided code challenge is invalid"@,
        OAuthErrorType::InvalidScope => "The requested scope is invalid, unknown, or malformed"@,
        OAuthErrorType::UnsupportedGrantType => "The provided authorization grant type is not supported by the authorization server."@,
        _ => "Internal Server Error"@,
    }
}

/// `t` is a failure of the server, not of the request.
pub open spec fn is_server_error_spec(t: OAuthErrorType) -> bool {
    match t {
        OAuthErrorType::EnvVar(_) | OAuthErrorType::UrlParse(_) | OAuthErrorType::Db(_)
        | OAuthErrorType::Session(_) | OAuthErrorType::Uuid(_) => true,
        OAuthErrorType::Jwt(e) => e is Var,
        _ => false,
    }
}

/// The HTTP status of `t`: 500 for server failures, 400 otherwise.
pub open spec fn status_spec(t: OAuthErrorType) -> u16 {
    if is_server_error_spec(t) {
        INTERNAL_SERVER_ERROR
    } else {
        BAD_REQUEST
    }
}

/// The diagnostic context of `t`, as a label and a message.
pub open spec fn context_spec(t: OAuthErrorType) -> Option<(Seq<char>, Seq<char>)> {
    match t {
        OAuthErrorType::Jwt(e) => match e {
            JwtError::Var(_) => Some(("env"@, jwt_error_message(e))),
            _ => Some(("jwt"@, jwt_error_message(e))),
        },
        OAuthErrorType::EnvVar(m) => Some(("env"@, m@)),
        OAuthErrorType::UrlParse(m) => Some(("url parse"@, m@)),
        OAuthErrorType::Db(m) => Some(("db"@, m@)),
        OAuthErrorType::Session(m) => Some(("session"@, m@)),
        OAuthErrorType::Uuid(m) => Some(("uuid"@, m@)),
        _ => None,
    }
}

/// `ctx` is the diagnostic context `context_spec` gives.
pub open spec fn context_matches(ctx: Option<InnerError>, expected: Option<(Seq<char>, Seq<char>)>) -> bool {
    match expected {
        None => ctx is None,
        Some(pair) => ctx matches Some(inner) && inner.trace_view() == seq![pair.0, pair.1],
    }
}

impl OAuthErrorType {
    /// The RFC 6749 error code.
    pub fn name_static(&self) -> (r: &'static str)
        ensures
            r@ == error_name(*self),
    {
        match self {
            OAuthErrorType::UnsupportedGrantType => "unsupported_grant_type",
            OAuthErrorType::EnvVar(_) | OAuthErrorType::UrlParse(_) | OAuthErrorType::Db(_)
            | OAuthErrorType::Session(_) | OAuthErrorType::Uuid(_) => "server_error",
            OAuthErrorType::Jwt(e) => match e {
                JwtError::Jwt(_) => "invalid_request",
                _ => "server_error",
            },
            OAuthErrorType::InvalidRedirect | OAuthErrorType::InvalidRequest
            | OAuthErrorType::MissingRefreshToken | OAuthErrorType::UnsupportedCodeChallengeMethod
            | OAuthErrorType::InvalidCodeChallenge | OAuthErrorType::MalformedCodeVerifier
            | OAuthErrorType::MalformedCode | OAuthErrorType::MalformedRefreshToken => "invalid_request",
            OAuthErrorType::InvalidScope => "invalid_scope",
            OAuthErrorType::AccessDenied => "access_denied",
            OAuthErrorType::InvalidClientId => "invalid_client",
            OAuthErrorType::InvalidCodeGrant => "invalid_grant",
        }
    }

    /// The human-readable description.
    pub fn description(&self) -> (r: &'static str)
        ensures
            r@ == error_description(*self),
    {
        match self {
            OAuthErrorType::MissingRefreshToken => "The provided refresh token was invalid",
            OAuthErrorType::MalformedRefreshToken => "The provided refresh token was malformed",
            OAuthErrorType::MalformedCode => "The provided code was malformed",
            OAuthErrorType::MalformedCodeVerifier => "The provided code verifier was malformed",
            OAuthErrorType::InvalidRedirect => "the provided redirect URI is invalid",
            OAuthErrorType::InvalidRequest => "The request is missing a required parameter or is otherwise malformed",
            OAuthErrorType::AccessDenied => "The resource owner denied the request",
            OAuthErrorType::InvalidClientId => "The provided client id was invalid",
            OAuthErrorType::InvalidCodeGrant => "The provided code grant is not supported",
            OAuthErrorType::UnsupportedCodeChallengeMethod => "The provided challenge method is not supported",
            OAuthErrorType::InvalidCodeChallenge => "The provided code challenge is invalid",
            OAuthErrorType::InvalidScope => "The requested scope is invalid, unknown, or malformed",
            OAuthErrorType::UnsupportedGrantType => "The provided authorization grant type is not supported by the authorization server.",
            _ => "Internal Server Error",
        }
    }

    /// The failure is the server's, not the request's.
    pub fn is_server_error(&self) -> (r: bool)
        ensures
            r == is_server_error_spec(*self),
    {
        match self {
            OAuthErrorType::EnvVar(_) | OAuthErrorType::UrlParse(_) | OAuthErrorType::Db(_)
            | OAuthErrorType::Session(_) | OAuthErrorType::Uuid(_) => true,
            OAuthErrorType::Jwt(e) => matches!(e, JwtError::Var(_)),
            _ => false,
        }
    }

    /// The HTTP status of the failure.
    pub fn status(&self) -> (r: u16)
        ensures
            r == status_spec(*self),
    {
        if self.is_server_error() {
            INTERNAL_SERVER_ERROR
        } else {
            BAD_REQUEST
        }
    }

    /// The diagnostic context of a server failure; none for a failure of the
    /// request.
    pub fn get_context(&self) -> (r: Option<InnerError>)
        ensures
            context_matches(r, context_spec(*self)),
    {
        match self {
            OAuthErrorType::Jwt(err) => match err {
                JwtError::Var(_) => Some(InnerError::labeled(String::from_str("env"), err.message())),
                _ => Some(InnerError::labeled(String::from_str("jwt"), err.message())),
            },
            OAuthErrorType::EnvVar(m) => Some(InnerError::labeled(String::from_str("env"), m.clone())),
            OAuthErrorType::UrlParse(m) => Some(
                InnerError::labeled(String::from_str("url parse"), m.clone()),
            ),
            OAuthErrorType::Db(m) => Some(InnerError::labeled(String::from_str("db"), m.clone())),
            OAuthErrorType::Session(m) => Some(
                InnerError::labeled(String::from_str("session"), m.clone()),
            ),
            OAuthErrorType::Uuid(m) => Some(InnerError::labeled(String::from_str("uuid"), m.clone())),
            _ => None,
        }
    }
}

/// A failure of the authorize endpoint, with what is needed to redirect it
/// back to the client when the redirect URI has been validated.
#[derive(Debug, Clone)]
pub struct OAuthAuthorizeError {
    pub error_type: Box<OAuthErrorType>,
    pub state: Option<String>,
    pub valid_redirect_uri: Option<String>,
}

impl OAuthAuthorizeError {
    /// A failure answered directly, without redirect.
    pub fn error(error_type: OAuthErrorType) -> (r: Self)
        ensures
            *r.error_type == error_type,
            r.state is None,
            r.valid_redirect_uri is None,
    {
        OAuthAuthorizeError { error_type: Box::new(error_type), valid_redirect_uri: None, state: None }
    }

    /// A failure redirected back to the client with its state.
    pub fn redirect(err: OAuthErrorType, state: &str, valid_redirect_uri: String) -> (r: Self)
        ensures
            *r.error_type == err,
            r.state matches Some(s) && s@ == state@,
            r.valid_redirect_uri == Some(valid_redirect_uri),
    {
        OAuthAuthorizeError {
            error_type: Box::new(err),
            state: Some(state.to_owned()),
            valid_redirect_uri: Some(valid_redirect_uri),
        }
    }
}

/// A failure of the token endpoint: always answered as a JSON body.
#[derive(Debug, Clone)]
pub struct OAuthTokenError {
    pub error_type: Box<OAuthErrorType>,
}

impl OAuthTokenError {
    /// The failure of the given kind.
    pub fn error(error_type: OAuthErrorType) -> (r: Self)
        ensures
            *r.error_type == error_type,
    {
        OAuthTokenError { error_type: Box::new(error_type) }
    }
}

/// How a failure of the authorize endpoint is answered when it is not
/// redirected: its status, and an error body naming the RFC error code,
/// describing it, and carrying its diagnostic context.
pub fn authorize_error_body(t: &OAuthErrorType) -> (r: ApplicationError)
    ensures
        r.code == status_spec(*t),
        r.message@ == error_name(*t),
        r.target@ == "query"@,
        r.details@.len() == 1,
        r.details@[0].code == status_spec(*t),
        r.details@[0].target@ == "query"@,
        r.details@[0].message@ == error_description(*t),
        context_matches(r.innererror, context_spec(*t)),
{
    let status = t.status();
    ApplicationError::new(
        status,
        t.name_static(),
        "query",
        vec![ErrorDetail::new(status, "query", t.description())],
        t.get_context(),
    )
}

} // verus!
