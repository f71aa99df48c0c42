//! Errors of the monitoring service and how each is answered.

use vstd::prelude::*;
use vstd::string::*;

verus! {

/// An error of the monitoring service, with its message.
#[derive(Clone, Debug)]
pub enum AppError {
    Validation(String),
    NotFound(String),
    Conflict(String),
    Infrastructure(String),
    Internal(String),
}

/// A result of the monitoring service.
pub type AppResult<T> = Result<T, AppError>;

/// The message an error carries.
pub open spec fn app_error_message(e: AppError) -> Seq<char> {
    match e {
        AppError::Validation(m) => m@,
        AppError::NotFound(m) => m@,
        AppError::Conflict(m) => m@,
        AppError::Infrastructure(m) => m@,
        AppError::Internal(m) => m@,
    }
}

/// How an error reads: a prefix naming its kind, then its message.
pub open spec fn app_error_text(e: AppError) -> Seq<char> {
    match e {
        AppError::Validation(m) => "validation error: "@ + m@,
        AppError::NotFound(m) => "not found: "@ + m@,
        AppError::Conflict(m) => "conflict: "@ + m@,
        AppError::Infrastructure(m) => "infrastructure error: "@ + m@,
        AppError::Internal(m) => "internal error: "@ + m@,
    }
}

/// The HTTP status an error is answered with.
pub open spec fn app_error_status(e: AppError) -> u16 {
    match e {
        AppError::Validation(_) => 400,
        AppError::NotFound(_) => 404,
        AppError::Conflict(_) => 409,
        AppError::Infrastructure(_) => 503,
        AppError::Internal(_) => 500,
    }
}

/// The error code in the body of the answer.
pub open spec fn app_error_code(e: AppError) -> Seq<char> {
    match e {
        AppError::Validation(_) => "validation_error"@,
        AppError::NotFound(_) => "not_found"@,
        AppError::Conflict(_) => "conflict"@,
        AppError::Infrastructure(_) => "infrastructure_error"@,
        AppError::Internal(_) => "internal_error"@,
    }
}

/// Errors of the server's side (logged as errors rather than warnings).
pub open spec fn app_error_server_side(e: AppError) -> bool {
    e is Infrastructure || e is Internal
}

/// An error is the server's fault exactly when it is answered with a 5xx
/// status; the others are answered with a 4xx status.
pub proof fn lemma_server_side_iff_5xx(e: AppError)
    ensures
        app_error_server_side(e) <==> app_error_status(e) >= 500,
        !app_error_server_side(e) ==> 400 <= app_error_status(e) < 500,
{
}

/// The body of an error answer.
#[derive(Clone, Debug)]
pub struct ErrorResponse {
    pub error: String,
    pub message: String,
}

/// An error answer: its status, its body, and whether the fault is the
/// server's.
#[derive(Clone, Debug)]
pub struct AppErrorAnswer {
    pub status: u16,
    pub body: ErrorResponse,
    pub server_side: bool,
}

impl AppError {
    /// A validation error.
    pub fn validation(message: String) -> (r: AppError)
        ensures
            r == AppError::Validation(message),
    {
        AppError::Validation(message)
    }

    /// A not-found error.
    pub fn not_found(message: String) -> (r: AppError)
        ensures
            r == AppError::NotFound(message),
    {
        AppError::NotFound(message)
    }

    /// An infrastructure error.
    pub fn infrastructure(message: String) -> (r: AppError)
        ensures
            r == AppError::Infrastructure(message),
    {
        AppError::Infrastructure(message)
    }

    /// An internal error.
    pub fn internal(message: String) -> (r: AppError)
        ensures
            r == AppError::Internal(message),
    {
        AppError::Internal(message)
    }

    /// The message this error carries.
    pub fn message(&self) -> (r: &String)
        ensures
            r@ == app_error_message(*self),
    {
        match self {
            AppError::Validation(m) => m,
            AppError::NotFound(m) => m,
            AppError::Conflict(m) => m,
            AppError::Infrastructure(m) => m,
            AppError::Internal(m) => m,
        }
    }

    /// How this error reads.
    pub fn to_string(&self) -> (r: String)
        ensures
            r@ == app_error_text(*self),
    {
        let (prefix, m) = match self {
            AppError::Validation(m) => ("validation error: ", m),
            AppError::NotFound(m) => ("not found: ", m),
            AppError::Conflict(m) => ("conflict: ", m),
            AppError::Infrastructure(m) => ("infrastructure error: ", m),
            AppError::Internal(m) => ("internal error: ", m),
        };
        let mut s = String::from_str(prefix);
        s.append(m.as_str());
        s
    }

    /// The answer to a request that failed with this error.
    pub fn into_answer(self) -> (r: AppErrorAnswer)
        ensures
            r.status == app_error_status(self),
            r.body.error@ == app_error_code(self),
            r.body.message@ == app_error_message(self),
            r.server_side == app_error_server_side(self),
    {
        let (status, code, message, server_side) = match self {
            AppError::Validation(m) => (400u16, "validation_error", m, false),
            AppError::NotFound(m) => (404u16, "not_found", m, false),
            AppError::Conflict(m) => (409u16, "conflict", m, false),
            AppError::Infrastructure(m) => (503u16, "infrastructure_error", m, true),
            AppError::Internal(m) => (500u16, "internal_error", m, true),
        };
        AppErrorAnswer {
            status,
            body: ErrorResponse { error: String::from_str(code), message },
            server_side,
        }
    }
}

} // verus!
