//! The error body that every API route answers with.

use vstd::prelude::*;
use vstd::string::StringExecFns;

verus! {

/// HTTP status 400.
pub const BAD_REQUEST: u16 = 400;

/// HTTP status 401.
pub const UNAUTHORIZED: u16 = 401;

/// HTTP status 403.
pub const FORBIDDEN: u16 = 403;

/// HTTP status 404.
pub const NOT_FOUND: u16 = 404;

/// HTTP status 410.
pub const GONE: u16 = 410;

/// HTTP status 500.
pub const INTERNAL_SERVER_ERROR: u16 = 500;

/// One item of an error's detail list.
#[derive(Debug, Clone)]
pub struct ErrorDetail {
    pub code: u16,
    pub target: String,
    pub message: String,
}

impl ErrorDetail {
    /// A detail with the given code, target and message.
    pub fn new(code: u16, target: &str, message: &str) -> (r: Self)
        ensures
            r.code == code,
            r.target@ == target@,
            r.message@ == message@,
    {
        ErrorDetail { code, target: target.to_owned(), message: message.to_owned() }
    }
}

/// Diagnostic context attached to an error: a trace of messages.
#[derive(Debug, Clone)]
pub struct InnerError {
    trace: Vec<String>,
}

/// The views of a list of strings.
pub open spec fn string_views(v: Seq<String>) -> Seq<Seq<char>> {
    v.map_values(|s: String| s@)
}

impl InnerError {
    /// The messages of the trace, outermost first.
    pub closed spec fn trace_view(&self) -> Seq<Seq<char>> {
        string_views(self.trace@)
    }

    /// A trace of one message.
    pub fn new(trace: String) -> (r: Self)
        ensures
            r.trace_view() == seq![trace@],
    {
        let r = InnerError { trace: vec![trace] };
        assert(r.trace_view() =~= seq![trace@]);
        r
    }

    /// A trace of a label followed by a reason.
    pub fn labeled(label: String, reason: String) -> (r: Self)
        ensures
            r.trace_view() == seq![label@, reason@],
    {
        let r = InnerError { trace: vec![label, reason] };
        assert(r.trace_view() =~= seq![label@, reason@]);
        r
    }

    /// A copy of the trace.
    pub fn duplicate(&self) -> (r: Self)
        ensures
            r.trace_view() == self.trace_view(),
    {
        let trace = self.trace.clone();
        assert(trace@ =~= self.trace@);
        InnerError { trace }
    }

    /// The messages of the trace.
    pub fn trace(&self) -> (r: &Vec<String>)
        ensures
            string_views(r@) == self.trace_view(),
    {
        &self.trace
    }
}

/// The error body of the API: status code, message, target, details and an
/// optional diagnostic context.
#[derive(Debug, Clone)]
pub struct ApplicationError {
    pub code: u16,
    pub message: String,
    pub target: String,
    pub details: Vec<ErrorDetail>,
    pub innererror: Option<InnerError>,
}

/// `e` carries the given code, message and target, no details and no context.
pub open spec fn is_plain_error(e: ApplicationError, code: u16, message: Seq<char>, target: Seq<char>) -> bool {
    &&& e.code == code
    &&& e.message@ == message
    &&& e.target@ == target
    &&& e.details@.len() == 0
    &&& e.innererror is None
}

/// `a` and `b` say the same: code, message, target, details and context.
pub open spec fn same_error(a: ApplicationError, b: ApplicationError) -> bool {
    &&& a.code == b.code
    &&& a.message == b.message
    &&& a.target == b.target
    &&& a.details@ == b.details@
    &&& match (a.innererror, b.innererror) {
        (Some(x), Some(y)) => x.trace_view() == y.trace_view(),
        (None, None) => true,
        _ => false,
    }
}

/// What a failed database call reports to the caller, with the outside error
/// reduced to its kind and message.
#[derive(Debug, Clone)]
pub enum DbError {
    /// The database refused the statement, with its message.
    Database(String),
    /// A query that expects a row found none.
    RowNotFound,
    /// Any other failure, with its message.
    Other(String),
}

impl ApplicationError {
    /// An error with every field given.
    pub fn new(
        code: u16,
        message: &str,
        target: &str,
        details: Vec<ErrorDetail>,
        error_context: Option<InnerError>,
    ) -> (r: Self)
        ensures
            r.code == code,
            r.message@ == message@,
            r.target@ == target@,
            r.details == details,
            r.innererror == error_context,
    {
        ApplicationError {
            code,
            message: message.to_owned(),
            target: target.to_owned(),
            details,
            innererror: error_context,
        }
    }

    /// A copy of the error, field by field.
    pub fn duplicate(&self) -> (r: Self)
        ensures
            same_error(r, *self),
    {
        let mut details: Vec<ErrorDetail> = Vec::new();
        let mut i: usize = 0;
        while i < self.details.len()
            invariant
                0 <= i <= self.details@.len(),
                details@ == self.details@.take(i as int),
            decreases self.details.len() - i,
        {
            let d = &self.details[i];
            details.push(ErrorDetail { code: d.code, target: d.target.clone(), message: d.message.clone() });
            assert(self.details@.take(i as int + 1) =~= self.details@.take(i as int).push(self.details@[i as int]));
            i = i + 1;
        }
        assert(self.details@.take(self.details@.len() as int) =~= self.details@);
        let innererror = match &self.innererror {
            Some(ctx) => Some(ctx.duplicate()),
            None => None,
        };
        ApplicationError {
            code: self.code,
            message: self.message.clone(),
            target: self.target.clone(),
            details,
            innererror,
        }
    }

    /// A 400 with the given reason, target and details.
    pub fn bad_request(reason: &str, target: &str, details: Vec<ErrorDetail>) -> (r: Self)
        ensures
            r.code == BAD_REQUEST,
            r.message@ == reason@,
            r.target@ == target@,
            r.details == details,
            r.innererror is None,
    {
        Self::new(BAD_REQUEST, reason, target, details, None)
    }

    /// A 401 with the given message, target and details.
    pub fn unauthorized(message: &str, target: &str, details: Vec<ErrorDetail>) -> (r: Self)
        ensures
            r.code == UNAUTHORIZED,
            r.message@ == message@,
            r.target@ == target@,
            r.details == details,
            r.innererror is None,
    {
        Self::new(UNAUTHORIZED, message, target, details, None)
    }

    /// A 500 with the given message and target, carrying `context` as its
    /// diagnostic trace.
    pub fn internal_server_error(message: &str, target: &str, context: String) -> (r: Self)
        ensures
            r.code == INTERNAL_SERVER_ERROR,
            r.message@ == message@,
            r.target@ == target@,
            r.details@.len() == 0,
            r.innererror matches Some(ctx) && ctx.trace_view() == seq![context@],
    {
        Self::new(INTERNAL_SERVER_ERROR, message, target, Vec::new(), Some(InnerError::new(context)))
    }

    /// A row addressed by id is not there, or not visible in the caller's
    /// scope: the two are answered alike so that ids cannot be probed.
    pub fn not_found(resource: &str) -> (r: Self)
        ensures
            r.code == NOT_FOUND,
            r.message@ == "no such "@ + resource@,
            r.target@ == "path"@,
            r.details@.len() == 1,
            r.details@[0].code == 4004,
            r.details@[0].target@ == resource@,
            r.details@[0].message@ == "unknown id, or not visible in this scope"@,
            r.innererror is None,
    {
        let mut message = String::from_str("no such ");
        message.append(resource);
        ApplicationError {
            code: NOT_FOUND,
            message,
            target: String::from_str("path"),
            details: vec![ErrorDetail::new(4004, resource, "unknown id, or not visible in this scope")],
            innererror: None,
        }
    }

    /// The answer to a failed database call: a refused statement is the
    /// caller's fault (400); anything else is a 500. A query that expected a
    /// row and found none is a server fault too (look rows up with an
    /// optional fetch and answer `not_found` where a caller may name a missing
    /// id); other failures carry their message as context.
    pub fn from_db_error(err: DbError) -> (r: Self)
        ensures
            match err {
                DbError::Database(msg) => {
                    &&& r.code == BAD_REQUEST
                    &&& r.message@ == "Bad Request"@
                    &&& r.target@ == "request"@
                    &&& r.details@.len() == 1
                    &&& r.details@[0].code == 400
                    &&& r.details@[0].target@ == "query"@
                    &&& r.details@[0].message@ == msg@
                    &&& r.innererror is None
                },
                DbError::RowNotFound => is_plain_error(
                    r,
                    INTERNAL_SERVER_ERROR,
                    "Internal Server Error"@,
                    "server"@,
                ),
                DbError::Other(msg) => {
                    &&& r.code == INTERNAL_SERVER_ERROR
                    &&& r.message@ == "Internal Server Error"@
                    &&& r.target@ == "server"@
                    &&& r.details@.len() == 0
                    &&& r.innererror matches Some(ctx) && ctx.trace_view() == seq![msg@]
                },
            },
    {
        match err {
            DbError::Database(msg) => ApplicationError::new(
                BAD_REQUEST,
                "Bad Request",
                "request",
                vec![ErrorDetail::new(400, "query", msg.as_str())],
                None,
            ),
            DbError::RowNotFound => ApplicationError::new(
                INTERNAL_SERVER_ERROR,
                "Internal Server Error",
                "server",
                Vec::new(),
                None,
            ),
            DbError::Other(msg) => ApplicationError::new(
                INTERNAL_SERVER_ERROR,
                "Internal Server Error",
                "server",
                Vec::new(),
                Some(InnerError::new(msg)),
            ),
        }
    }
}

} // verus!
