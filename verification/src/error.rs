//! The application-wide error type and the stable wire reply each error
//! maps to (HTTP status, machine code, optional client-safe message).
//!
//! Inner texts of `Db`, `Wa`, `Email` and `Internal` never reach clients:
//! the reply carries only the machine code, and the text is meant for logs.

use vstd::prelude::*;

verus! {

/// Specific reasons the auth flow rejected a request.
#[derive(Debug, Clone, Copy, PartialEq, Eq, Structural)]
pub enum AuthReason {
    /// Code did not match any active hash, or email typo.
    InvalidCode,
    /// Code matched but its TTL has passed.
    ExpiredCode,
    /// No `sid` cookie, or cookie signature bad.
    NoSession,
    /// Cookie valid but DB session row expired.
    SessionExpired,
}

/// The top-level error every service returns.
#[derive(Debug)]
pub enum AppError {
    /// Storage failure; the text of the database error.
    Db(String),
    /// Upstream WA adapter failure (disconnected, timeout, protocol).
    Wa(String),
    /// Auth-flow specific refusals.
    Auth(AuthReason),
    /// Caller-supplied data failed validation; the message is safe to show.
    Validation(String),
    /// Email send-path failure; the text is not returned to clients.
    Email(String),
    /// Row/entity not found.
    NotFound,
    /// Unique-constraint / state-transition conflict.
    Conflict(String),
    /// Rate-limit bucket exhausted.
    RateLimited,
    /// Catch-all for unexpected internal errors.
    Internal(String),
}

/// The mathematical value of an [`AppError`]: its variant and texts.
pub ghost enum ErrorView {
    Db(Seq<char>),
    Wa(Seq<char>),
    Auth(AuthReason),
    Validation(Seq<char>),
    Email(Seq<char>),
    NotFound,
    Conflict(Seq<char>),
    RateLimited,
    Internal(Seq<char>),
}

impl View for AppError {
    type V = ErrorView;

    open spec fn view(&self) -> ErrorView {
        match self {
            AppError::Db(m) => ErrorView::Db(m@),
            AppError::Wa(m) => ErrorView::Wa(m@),
            AppError::Auth(r) => ErrorView::Auth(*r),
            AppError::Validation(m) => ErrorView::Validation(m@),
            AppError::Email(m) => ErrorView::Email(m@),
            AppError::NotFound => ErrorView::NotFound,
            AppError::Conflict(m) => ErrorView::Conflict(m@),
            AppError::RateLimited => ErrorView::RateLimited,
            AppError::Internal(m) => ErrorView::Internal(m@),
        }
    }
}

/// The view of a fallible result: the success value mapped by `f`, the
/// error by its view.
pub open spec fn result_view<T, V>(r: Result<T, AppError>, f: spec_fn(T) -> V) -> Result<
    V,
    ErrorView,
> {
    match r {
        Ok(t) => Ok(f(t)),
        Err(e) => Err(e@),
    }
}

/// How loudly an error is logged when it is turned into a reply.
#[derive(Debug, Clone, Copy, PartialEq, Eq, Structural)]
pub enum LogLevel {
    Silent,
    Warn,
    Error,
}

/// The wire shape of an error reply: `{"error":{"code":..,"message":..}}`
/// with the HTTP status it is sent under.
#[derive(Debug)]
pub struct ErrorReply {
    pub status: u16,
    pub code: &'static str,
    /// Present for `Validation` only.
    pub message: Option<String>,
    pub log: LogLevel,
}

/// Status, code, message and log level of the reply for `e`.
pub open spec fn reply_for(e: AppError) -> (u16, Seq<char>, Option<Seq<char>>, LogLevel) {
    match e {
        AppError::Db(_) => (500, "db_error"@, None, LogLevel::Error),
        AppError::Wa(_) => (502, "wa_unavailable"@, None, LogLevel::Warn),
        AppError::Auth(r) => match r {
            AuthReason::InvalidCode | AuthReason::ExpiredCode => (
                400,
                "invalid_code"@,
                None,
                LogLevel::Silent,
            ),
            AuthReason::NoSession | AuthReason::SessionExpired => (
                401,
                "unauthenticated"@,
                None,
                LogLevel::Silent,
            ),
        },
        AppError::Validation(m) => (422, "validation_error"@, Some(m@), LogLevel::Silent),
        AppError::Email(_) => (500, "email_failed"@, None, LogLevel::Error),
        AppError::NotFound => (404, "not_found"@, None, LogLevel::Silent),
        AppError::Conflict(_) => (409, "conflict"@, None, LogLevel::Silent),
        AppError::RateLimited => (429, "rate_limited"@, None, LogLevel::Silent),
        AppError::Internal(_) => (500, "internal"@, None, LogLevel::Error),
    }
}

impl ErrorReply {
    /// The reply an error is answered with.
    pub fn from_error(e: &AppError) -> (r: ErrorReply)
        ensures
            (r.status, r.code@, crate::text::opt_view(r.message), r.log) == reply_for(*e),
    {
        match e {
            AppError::Db(_) => ErrorReply {
                status: 500,
                code: "db_error",
                message: None,
                log: LogLevel::Error,
            },
            AppError::Wa(_) => ErrorReply {
                status: 502,
                code: "wa_unavailable",
                message: None,
                log: LogLevel::Warn,
            },
            AppError::Auth(reason) => match reason {
                AuthReason::InvalidCode | AuthReason::ExpiredCode => ErrorReply {
                    status: 400,
                    code: "invalid_code",
                    message: None,
                    log: LogLevel::Silent,
                },
                AuthReason::NoSession | AuthReason::SessionExpired => ErrorReply {
                    status: 401,
                    code: "unauthenticated",
                    message: None,
                    log: LogLevel::Silent,
                },
            },
            AppError::Validation(m) => ErrorReply {
                status: 422,
                code: "validation_error",
                message: Some(m.clone()),
                log: LogLevel::Silent,
            },
            AppError::Email(_) => ErrorReply {
                status: 500,
                code: "email_failed",
                message: None,
                log: LogLevel::Error,
            },
            AppError::NotFound => ErrorReply {
                status: 404,
                code: "not_found",
                message: None,
                log: LogLevel::Silent,
            },
            AppError::Conflict(_) => ErrorReply {
                status: 409,
                code: "conflict",
                message: None,
                log: LogLevel::Silent,
            },
            AppError::RateLimited => ErrorReply {
                status: 429,
                code: "rate_limited",
                message: None,
                log: LogLevel::Silent,
            },
            AppError::Internal(_) => ErrorReply {
                status: 500,
                code: "internal",
                message: None,
                log: LogLevel::Error,
            },
        }
    }
}

/// Only `Validation` replies carry a message, and that message is the
/// error's own text: the texts of storage, WhatsApp, email, conflict and
/// internal failures never reach a client.
pub proof fn reply_exposes_only_safe_messages(e: AppError)
    ensures
        reply_for(e).2 is Some <==> e is Validation,
        e matches AppError::Validation(m) ==> reply_for(e).2 == Some(m@),
{
}

} // verus!
