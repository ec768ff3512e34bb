//! The authorize endpoint (RFC 6749 §4.1.1 and §4.1.2): where a checked
//! request is redirected, and how its failures are answered.

use vstd::prelude::*;
use vstd::string::StringExecFns;

use crate::api_errors::ApplicationError;
use crate::codec::{uuid_parse, uuid_parse_spec, uuid_text, uuid_text_spec};
use crate::oauth_errors::{
    authorize_error_body, context_matches, context_spec, error_description, error_name,
    status_spec, OAuthAuthorizeError, OAuthErrorType, OAuthTokenError,
};
use crate::scope::{
    authorize_failure, parse_scopes, parse_tokens, reports_failure, scope_names, scopes_to_string,
    OAuthAuthorizeQuery,
};
use crate::text::{join_spaced, ws_tokens};
use crate::urls::{url_append_pair, url_append_pair_spec, url_join, url_join_spec, url_parse, url_parse_spec};

verus! {

/// The scope recorded with a grant: the requested scopes, each once, in
/// order of first mention; none when the request names none.
pub open spec fn stored_scope_spec(scope: Option<String>) -> Option<Seq<char>> {
    match scope {
        None => None,
        Some(s) => match parse_tokens(ws_tokens(s@)) {
            Some(scopes) => if scopes.len() == 0 {
                None
            } else {
                Some(join_spaced(scope_names(scopes)))
            },
            None => None,
        },
    }
}

/// The view of an optional string.
pub open spec fn opt_view(s: Option<String>) -> Option<Seq<char>> {
    match s {
        Some(t) => Some(t@),
        None => None,
    }
}

/// Checks an authorization request and gives the scope to record with its
/// grant.
pub fn authorize_scope(q: &OAuthAuthorizeQuery) -> (r: Result<Option<String>, OAuthAuthorizeError>)
    ensures
        match authorize_failure(*q) {
            Some(f) => r matches Err(e) && reports_failure(*q, f, e),
            None => r matches Ok(s) && opt_view(s) == stored_scope_spec(q.scope),
        },
{
    q.validate()?;
    let scopes = match &q.scope {
        None => Vec::new(),
        Some(raw) => match parse_scopes(raw.as_str()) {
            Ok(v) => v,
            Err(_) => {
                return Err(
                    OAuthAuthorizeError::redirect(
                        OAuthErrorType::InvalidScope,
                        q.state.as_str(),
                        q.redirect_uri.clone(),
                    ),
                );
            },
        },
    };
    if scopes.len() == 0 {
        Ok(None)
    } else {
        Ok(Some(scopes_to_string(scopes.as_slice())))
    }
}

/// Reads the id of the signed-in user out of the session.
pub fn authorize_user(id: &str) -> (r: Result<u128, OAuthAuthorizeError>)
    ensures
        match uuid_parse_spec(id@) {
            Some(u) => r matches Ok(v) && v == u,
            None => r matches Err(e) && *e.error_type is Uuid && e.state is None
                && e.valid_redirect_uri is None,
        },
{
    match uuid_parse(id) {
        Ok(u) => Ok(u),
        Err(msg) => Err(OAuthAuthorizeError::error(OAuthErrorType::Uuid(msg))),
    }
}

/// The callback a granted code is sent to: the redirect URI with `code` and
/// `state` appended to its query.
pub open spec fn code_redirect_spec(redirect: Seq<char>, code: Seq<char>, state: Seq<char>) -> Option<Seq<char>> {
    match url_parse_spec(redirect) {
        Some(t) => Some(
            url_append_pair_spec(url_append_pair_spec(t, "code"@, code), "state"@, state),
        ),
        None => None,
    }
}

/// Where a signed-in user is redirected once a code is granted.
pub fn code_redirect(redirect_uri: &str, code: &str, state: &str) -> (r: Result<String, OAuthAuthorizeError>)
    ensures
        match code_redirect_spec(redirect_uri@, code@, state@) {
            Some(t) => r matches Ok(s) && s@ == t,
            None => r matches Err(e) && *e.error_type is UrlParse && e.state is None
                && e.valid_redirect_uri is None,
        },
{
    let base = match url_parse(redirect_uri) {
        Ok(u) => u,
        Err(msg) => return Err(OAuthAuthorizeError::error(OAuthErrorType::UrlParse(msg))),
    };
    let with_code = url_append_pair(base.as_str(), "code", code);
    Ok(url_append_pair(with_code.as_str(), "state", state))
}

/// The authorize URL a sign-in returns to: the server's authorize endpoint
/// with the parameters of the request being authorized.
pub open spec fn return_to_spec(endpoint: Seq<char>, q: OAuthAuthorizeQuery) -> Seq<char> {
    let u1 = url_append_pair_spec(endpoint, "response_type"@, q.response_type@);
    let u2 = url_append_pair_spec(u1, "client_id"@, uuid_text_spec(q.client_id));
    let u3 = url_append_pair_spec(u2, "redirect_uri"@, q.redirect_uri@);
    let u4 = url_append_pair_spec(u3, "code_challenge"@, q.code_challenge@);
    let u5 = url_append_pair_spec(u4, "code_challenge_method"@, q.code_challenge_method@);
    let u6 = url_append_pair_spec(u5, "state"@, q.state@);
    match q.scope {
        Some(s) => url_append_pair_spec(u6, "scope"@, s@),
        None => u6,
    }
}

/// Where a user who is not signed in is sent: the login page under the
/// server's origin `iss`, told to return to the authorize request.
pub open spec fn login_redirect_spec(iss: Seq<char>, q: OAuthAuthorizeQuery) -> Option<Seq<char>> {
    match url_parse_spec(iss) {
        None => None,
        Some(origin) => match url_join_spec(origin, "/auth/authorize"@) {
            None => None,
            Some(endpoint) => match url_join_spec(origin, "/login"@) {
                None => None,
                Some(login) => Some(
                    url_append_pair_spec(login, "return_to"@, return_to_spec(endpoint, q)),
                ),
            },
        },
    }
}

/// The URL a user who is not signed in is redirected to.
pub fn login_redirect(iss: &str, q: &OAuthAuthorizeQuery) -> (r: Result<String, OAuthAuthorizeError>)
    ensures
        match login_redirect_spec(iss@, *q) {
            Some(t) => r matches Ok(s) && s@ == t,
            None => r matches Err(e) && *e.error_type is UrlParse && e.state is None
                && e.valid_redirect_uri is None,
        },
{
    let origin = match url_parse(iss) {
        Ok(u) => u,
        Err(msg) => return Err(OAuthAuthorizeError::error(OAuthErrorType::UrlParse(msg))),
    };
    let endpoint = match url_join(origin.as_str(), "/auth/authorize") {
        Ok(u) => u,
        Err(msg) => return Err(OAuthAuthorizeError::error(OAuthErrorType::UrlParse(msg))),
    };
    let client_id = uuid_text(q.client_id);
    let u1 = url_append_pair(endpoint.as_str(), "response_type", q.response_type.as_str());
    let u2 = url_append_pair(u1.as_str(), "client_id", client_id.as_str());
    let u3 = url_append_pair(u2.as_str(), "redirect_uri", q.redirect_uri.as_str());
    let u4 = url_append_pair(u3.as_str(), "code_challenge", q.code_challenge.as_str());
    let u5 = url_append_pair(u4.as_str(), "code_challenge_method", q.code_challenge_method.as_str());
    let u6 = url_append_pair(u5.as_str(), "state", q.state.as_str());
    let return_to = match &q.scope {
        Some(s) => url_append_pair(u6.as_str(), "scope", s.as_str()),
        None => u6,
    };
    let login = match url_join(origin.as_str(), "/login") {
        Ok(u) => u,
        Err(msg) => return Err(OAuthAuthorizeError::error(OAuthErrorType::UrlParse(msg))),
    };
    Ok(url_append_pair(login.as_str(), "return_to", return_to.as_str()))
}

/// The callback that reports an error back to the client (RFC 6749
/// §4.1.2.1): the redirect URI with `error`, `error_description` and the
/// state, if any, appended; the redirect URI as it is when it does not parse.
pub open spec fn error_redirect_spec(
    redirect: Seq<char>,
    error: Seq<char>,
    description: Seq<char>,
    state: Option<Seq<char>>,
) -> Seq<char> {
    match url_parse_spec(redirect) {
        None => redirect,
        Some(t) => {
            let u = url_append_pair_spec(
                url_append_pair_spec(t, "error"@, error),
                "error_description"@,
                description,
            );
            match state {
                Some(s) => url_append_pair_spec(u, "state"@, s),
                None => u,
            }
        },
    }
}

/// Builds the callback that reports an error back to the client. Every
/// parameter is percent-encoded, so none can smuggle in another.
pub fn build_error_redirect(redirect_uri: &str, error: &str, error_description: &str, state: Option<&str>) -> (r: String)
    ensures
        r@ == error_redirect_spec(
            redirect_uri@,
            error@,
            error_description@,
            match state {
                Some(s) => Some(s@),
                None => None::<Seq<char>>,
            },
        ),
{
    let base = match url_parse(redirect_uri) {
        Ok(u) => u,
        Err(_) => return redirect_uri.to_owned(),
    };
    let u1 = url_append_pair(base.as_str(), "error", error);
    let u2 = url_append_pair(u1.as_str(), "error_description", error_description);
    match state {
        Some(s) => url_append_pair(u2.as_str(), "state", s),
        None => u2,
    }
}

/// How a failure of the authorize endpoint is answered.
#[derive(Debug, Clone)]
pub enum AuthorizeErrorResponse {
    /// A 302 back to the client, with the error in the callback's query.
    Redirect { location: String },
    /// The error as a JSON body with its status.
    Body { status: u16, body: ApplicationError },
}

impl OAuthAuthorizeError {
    /// The answer to the failure: redirected back to the client when its
    /// redirect URI was validated, else a JSON error body.
    pub fn error_response(&self) -> (r: AuthorizeErrorResponse)
        ensures
            match self.valid_redirect_uri {
                Some(uri) => r matches AuthorizeErrorResponse::Redirect { location } && location@
                    == error_redirect_spec(
                    uri@,
                    error_name(*self.error_type),
                    error_description(*self.error_type),
                    opt_view(self.state),
                ),
                None => r matches AuthorizeErrorResponse::Body { status, body } && status
                    == status_spec(*self.error_type) && body.code == status && body.message@
                    == error_name(*self.error_type) && body.target@ == "query"@
                    && body.details@.len() == 1 && body.details@[0].code == status
                    && body.details@[0].target@ == "query"@ && body.details@[0].message@
                    == error_description(*self.error_type) && context_matches(
                    body.innererror,
                    context_spec(*self.error_type),
                ),
            },
    {
        match &self.valid_redirect_uri {
            Some(uri) => {
                let state = match &self.state {
                    Some(s) => Some(s.as_str()),
                    None => None,
                };
                let location = build_error_redirect(
                    uri.as_str(),
                    self.error_type.name_static(),
                    self.error_type.description(),
                    state,
                );
                AuthorizeErrorResponse::Redirect { location }
            },
            None => {
                let body = authorize_error_body(&self.error_type);
                AuthorizeErrorResponse::Body { status: self.error_type.status(), body }
            },
        }
    }
}

/// The error body of the token endpoint (RFC 6749 §5.2).
#[derive(Debug, Clone)]
pub struct OAuthErrorBody {
    pub error: String,
    pub error_description: String,
    pub error_uri: Option<String>,
}

impl OAuthTokenError {
    /// The status and body the failure is answered with; the response is
    /// never cached.
    pub fn error_response(&self) -> (r: (u16, OAuthErrorBody))
        ensures
            r.0 == status_spec(*self.error_type),
            r.1.error@ == error_name(*self.error_type),
            r.1.error_description@ == error_description(*self.error_type),
            r.1.error_uri is None,
    {
        let body = OAuthErrorBody {
            error: String::from_str(self.error_type.name_static()),
            error_description: String::from_str(self.error_type.description()),
            error_uri: None,
        };
        (self.error_type.status(), body)
    }
}

} // verus!
