//! The verdict of Cloudflare Turnstile on a login or signup form, and the
//! answers of the account pages.

use vstd::prelude::*;
use vstd::string::StringExecFns;

use crate::text::{replace_all, replace_str};
use crate::api_errors::{
    ApplicationError, ErrorDetail, InnerError, same_error, BAD_REQUEST, FORBIDDEN, INTERNAL_SERVER_ERROR,
};

verus! {

/// Metadata Turnstile attaches to a passed challenge.
#[derive(Debug, Clone)]
pub struct Metadata {
    pub ephemeral_id: String,
}

/// The answer of Turnstile's `siteverify` endpoint: a failure with its error
/// codes, or a pass with the challenge's details.
#[derive(Debug, Clone)]
pub enum TurnstileResponse {
    Error { success: bool, error_codes: Vec<String> },
    Passed {
        success: bool,
        challenge_ts: String,
        hostname: String,
        error_codes: Vec<String>,
        action: String,
        cdata: String,
        metadata: Metadata,
    },
}

impl TurnstileResponse {
    /// The answer is a failure.
    pub fn is_err(&self) -> (r: bool)
        ensures
            r == (*self is Error),
    {
        match self {
            TurnstileResponse::Error { .. } => true,
            TurnstileResponse::Passed { .. } => false,
        }
    }

    /// The error codes of the answer.
    pub fn error_codes(&self) -> (r: &Vec<String>)
        ensures
            match *self {
                TurnstileResponse::Error { error_codes, .. } => *r == error_codes,
                TurnstileResponse::Passed { error_codes, .. } => *r == error_codes,
            },
    {
        match self {
            TurnstileResponse::Error { error_codes, .. } => error_codes,
            TurnstileResponse::Passed { error_codes, .. } => error_codes,
        }
    }
}

/// Why a Turnstile check did not pass: the secret is not configured, the
/// request failed (with its message), or Turnstile refused the token.
#[derive(Debug, Clone)]
pub enum TurnstileError {
    MissingEnv(String),
    Request(String),
    Verify(TurnstileResponse),
}

/// The message of a Turnstile failure.
pub open spec fn turnstile_error_message(e: TurnstileError) -> Seq<char> {
    match e {
        TurnstileError::MissingEnv(_) => "failed to get env var"@,
        TurnstileError::Request(_) => "network error"@,
        TurnstileError::Verify(_) => "verification failed for client"@,
    }
}

impl TurnstileError {
    /// The message of the failure.
    pub fn message(&self) -> (r: String)
        ensures
            r@ == turnstile_error_message(*self),
    {
        match self {
            TurnstileError::MissingEnv(_) => String::from_str("failed to get env var"),
            TurnstileError::Request(_) => String::from_str("network error"),
            TurnstileError::Verify(_) => String::from_str("verification failed for client"),
        }
    }
}

/// Accepts Turnstile's answer only when it is a pass.
pub fn check_turnstile(resp: TurnstileResponse) -> (r: Result<TurnstileResponse, TurnstileError>)
    ensures
        if resp is Error {
            r == Err::<TurnstileResponse, TurnstileError>(TurnstileError::Verify(resp))
        } else {
            r == Ok::<TurnstileResponse, TurnstileError>(resp)
        },
{
    if resp.is_err() {
        return Err(TurnstileError::Verify(resp));
    }
    Ok(resp)
}

/// A failure of the account pages. Failures of outside services carry their
/// message.
#[derive(Debug, Clone)]
pub enum AuthPageError {
    MailBoxError(String),
    DbError(String),
    Argon(String),
    Request(ApplicationError),
    Login(String),
}

/// The HTTP status of an account page failure: that of the request error it
/// carries, 500 for anything else.
pub open spec fn auth_page_status(e: AuthPageError) -> u16 {
    match e {
        AuthPageError::Request(r) => r.code,
        _ => INTERNAL_SERVER_ERROR,
    }
}

/// A status code that HTTP can carry: three digits.
pub open spec fn is_status_code(code: u16) -> bool {
    100 <= code <= 999
}

/// The message and context of an account page failure of a service.
pub open spec fn auth_page_body_spec(e: AuthPageError) -> Option<(Seq<char>, Seq<char>)> {
    match e {
        AuthPageError::Login(m) => Some(("Internal Server Error"@, m@)),
        AuthPageError::DbError(m) => Some(("Internal Server Error: code (2255)"@, m@)),
        AuthPageError::MailBoxError(m) => Some(("Internal Server Error: code (2256)"@, m@)),
        AuthPageError::Argon(m) => Some(("Internal Server Error: code (2257)"@, m@)),
        AuthPageError::Request(_) => None,
    }
}

impl AuthPageError {
    /// The HTTP status of the failure.
    pub fn status_code(&self) -> (r: u16)
        requires
            is_status_code(auth_page_status(*self)),
        ensures
            r == auth_page_status(*self),
    {
        match self {
            AuthPageError::Request(r) => r.code,
            _ => INTERNAL_SERVER_ERROR,
        }
    }

    /// The body the failure is answered with: the request error itself, or a
    /// 500 naming the failing service by code and carrying its message.
    pub fn get_body(&self) -> (r: ApplicationError)
        requires
            is_status_code(auth_page_status(*self)),
        ensures
            match auth_page_body_spec(*self) {
                None => *self matches AuthPageError::Request(e) && same_error(r, e),
                Some(pair) => r.code == INTERNAL_SERVER_ERROR && r.message@ == pair.0 && r.target@
                    == "server"@ && r.details@.len() == 0 && (r.innererror matches Some(ctx)
                    && ctx.trace_view() == seq![pair.1]),
            },
    {
        match self {
            AuthPageError::Login(err) => ApplicationError::new(
                INTERNAL_SERVER_ERROR,
                "Internal Server Error",
                "server",
                Vec::new(),
                Some(InnerError::new(err.clone())),
            ),
            AuthPageError::Request(error) => error.duplicate(),
            AuthPageError::DbError(err) => ApplicationError::new(
                self.status_code(),
                "Internal Server Error: code (2255)",
                "server",
                Vec::new(),
                Some(InnerError::new(err.clone())),
            ),
            AuthPageError::MailBoxError(err) => ApplicationError::new(
                self.status_code(),
                "Internal Server Error: code (2256)",
                "server",
                Vec::new(),
                Some(InnerError::new(err.clone())),
            ),
            AuthPageError::Argon(reason) => ApplicationError::new(
                self.status_code(),
                "Internal Server Error: code (2257)",
                "server",
                Vec::new(),
                Some(InnerError::new(reason.clone())),
            ),
        }
    }
}

/// The account page could not tell where the request came from.
pub fn remote_ip_missing() -> (r: AuthPageError)
    ensures
        r matches AuthPageError::Request(e) && e.code == INTERNAL_SERVER_ERROR && e.message@
            == "internal server error"@ && e.target@ == "server"@ && e.details@.len() == 0 && (
        e.innererror matches Some(ctx) && ctx.trace_view() == seq!["failed to fetch remote ip"@]),
{
    AuthPageError::Request(
        ApplicationError::new(
            INTERNAL_SERVER_ERROR,
            "internal server error",
            "server",
            Vec::new(),
            Some(InnerError::new(String::from_str("failed to fetch remote ip"))),
        ),
    )
}

/// Turnstile could not be asked: a 500 carrying the failure's message.
pub fn turnstile_unavailable(err: &TurnstileError) -> (r: AuthPageError)
    ensures
        r matches AuthPageError::Request(e) && e.code == INTERNAL_SERVER_ERROR && e.message@
            == "internal server error"@ && e.target@ == "server"@ && e.details@.len() == 0 && (
        e.innererror matches Some(ctx) && ctx.trace_view() == seq![turnstile_error_message(*err)]),
{
    AuthPageError::Request(
        ApplicationError::new(
            INTERNAL_SERVER_ERROR,
            "internal server error",
            "server",
            Vec::new(),
            Some(InnerError::new(err.message())),
        ),
    )
}

/// Turnstile refused the form: a 403 with one detail per error code it gave.
pub fn turnstile_refused(error_codes: &Vec<String>) -> (r: AuthPageError)
    ensures
        r matches AuthPageError::Request(e) && e.code == FORBIDDEN && e.message@
            == "turnstile error"@ && e.target@ == "request"@ && e.innererror is None
            && e.details@.len() == error_codes@.len() && (forall|i: int|
            0 <= i < error_codes@.len() ==> (#[trigger] e.details@[i]).code == 4001
                && e.details@[i].target@ == "request"@ && e.details@[i].message@
                == error_codes@[i]@),
{
    let mut details: Vec<ErrorDetail> = Vec::new();
    let mut i: usize = 0;
    while i < error_codes.len()
        invariant
            0 <= i <= error_codes@.len(),
            details@.len() == i,
            forall|k: int|
                0 <= k < i ==> (#[trigger] details@[k]).code == 4001 && details@[k].target@
                    == "request"@ && details@[k].message@ == error_codes@[k]@,
        decreases error_codes.len() - i,
    {
        details.push(ErrorDetail::new(4001, "request", error_codes[i].as_str()));
        i = i + 1;
    }
    AuthPageError::Request(ApplicationError::new(FORBIDDEN, "turnstile error", "request", details, None))
}

/// `r` is the answer to failed credentials: a 400 that names neither the
/// username nor which check failed.
pub open spec fn is_invalid_credentials(r: AuthPageError) -> bool {
    r matches AuthPageError::Request(e) && e.code == BAD_REQUEST && e.message@
        == "username or password is invalid"@ && e.target@ == "body"@ && e.innererror is None
        && e.details@.len() == 1 && e.details@[0].code == 404 && e.details@[0].target@
        == "body"@ && e.details@[0].message@ == "invalid username or password"@
}

/// What a caller sees of an account page failure: its kind and text, and for
/// a request error its code, message, target, details and whether it carries
/// a diagnostic context.
pub open spec fn page_error_view(r: AuthPageError) -> (
    u8,
    Seq<char>,
    u16,
    Seq<char>,
    Seq<(u16, Seq<char>, Seq<char>)>,
    bool,
) {
    match r {
        AuthPageError::MailBoxError(m) => (0, m@, 0, Seq::empty(), Seq::empty(), false),
        AuthPageError::DbError(m) => (1, m@, 0, Seq::empty(), Seq::empty(), false),
        AuthPageError::Argon(m) => (2, m@, 0, Seq::empty(), Seq::empty(), false),
        AuthPageError::Login(m) => (3, m@, 0, Seq::empty(), Seq::empty(), false),
        AuthPageError::Request(e) => (
            4,
            e.message@,
            e.code,
            e.target@,
            e.details@.map_values(|d: ErrorDetail| (d.code, d.target@, d.message@)),
            e.innererror is Some,
        ),
    }
}

/// The login failed: unknown user and wrong password are answered alike.
pub fn invalid_credentials() -> (r: AuthPageError)
    ensures
        is_invalid_credentials(r),
{
    AuthPageError::Request(
        ApplicationError::new(
            BAD_REQUEST,
            "username or password is invalid",
            "body",
            vec![ErrorDetail::new(404, "body", "invalid username or password")],
            None,
        ),
    )
}

/// The verdict on a login whose turnstile check passed: `user` is the id of
/// the account the username names, if any, and `password_ok` whether the
/// password matches that account's hash. Only a known user with the right
/// password logs in; an unknown user and a wrong password get the same
/// answer.
pub fn login_decision(user: Option<u128>, password_ok: bool) -> (r: Result<u128, AuthPageError>)
    ensures
        r is Ok <==> user is Some && password_ok,
        r matches Ok(id) ==> user == Some(id),
        r matches Err(e) ==> is_invalid_credentials(e),
{
    match user {
        Some(id) => if password_ok {
            Ok(id)
        } else {
            Err(invalid_credentials())
        },
        None => Err(invalid_credentials()),
    }
}

/// Law: a failed login reveals nothing of the account. Whatever made two
/// logins fail (an unknown username or a wrong password), a caller sees the
/// same answer to both.
pub proof fn law_login_failures_alike(a: AuthPageError, b: AuthPageError)
    requires
        is_invalid_credentials(a),
        is_invalid_credentials(b),
    ensures
        page_error_view(a) == page_error_view(b),
{
    if let (AuthPageError::Request(x), AuthPageError::Request(y)) = (a, b) {
        let f = |d: ErrorDetail| (d.code, d.target@, d.message@);
        assert(x.details@.map_values(f) =~= y.details@.map_values(f));
    }
}

/// The signup names a username or email that is taken.
pub fn user_already_exists() -> (r: AuthPageError)
    ensures
        r matches AuthPageError::Request(e) && e.code == BAD_REQUEST && e.message@
            == "user already exists"@ && e.target@ == "body"@ && e.innererror is None
            && e.details@.len() == 1 && e.details@[0].code == 405 && e.details@[0].target@
            == "body"@ && e.details@[0].message@
            == "a user with given username or email already exists"@,
{
    AuthPageError::Request(
        ApplicationError::new(
            BAD_REQUEST,
            "user already exists",
            "body",
            vec![ErrorDetail::new(405, "body", "a user with given username or email already exists")],
            None,
        ),
    )
}

/// The avatar a new user gets: a generated image seeded by the username.
pub open spec fn avatar_url_spec(username: Seq<char>) -> Seq<char> {
    "https://api.dicebear.com/9.x/rings/svg?seed="@ + username
        + "&backgroundType=gradientLinear&backgroundColor=b6e3f4,c0aede,d1d4f9"@
}

/// The avatar URL of a new user.
pub fn avatar_url(username: &str) -> (r: String)
    ensures
        r@ == avatar_url_spec(username@),
{
    let mut r = String::from_str("https://api.dicebear.com/9.x/rings/svg?seed=");
    r.append(username);
    r.append("&backgroundType=gradientLinear&backgroundColor=b6e3f4,c0aede,d1d4f9");
    r
}

/// A login or signup page: the template with the form's CSRF field name and
/// token and the captcha site key filled in.
pub open spec fn auth_page_spec(
    template: Seq<char>,
    csrf_field: Seq<char>,
    csrf_value: Seq<char>,
    site_key: Seq<char>,
) -> Seq<char> {
    replace_all(
        replace_all(replace_all(template, "{CSRF_TOKEN_FIELD}"@, csrf_field), "{CSRF_TOKEN_VALUE}"@, csrf_value),
        "{RECAPTCHA_SITE_KEY}"@,
        site_key,
    )
}

/// Fills in a login or signup page template.
pub fn render_auth_page(template: &str, csrf_field: &str, csrf_value: &str, site_key: &str) -> (r: String)
    ensures
        r@ == auth_page_spec(template@, csrf_field@, csrf_value@, site_key@),
{
    proof {
        reveal_strlit("{CSRF_TOKEN_FIELD}");
        reveal_strlit("{CSRF_TOKEN_VALUE}");
        reveal_strlit("{RECAPTCHA_SITE_KEY}");
    }
    let a = replace_str(template, "{CSRF_TOKEN_FIELD}", csrf_field);
    let b = replace_str(a.as_str(), "{CSRF_TOKEN_VALUE}", csrf_value);
    replace_str(b.as_str(), "{RECAPTCHA_SITE_KEY}", site_key)
}

} // verus!
