use vstd::prelude::*;

use crate::text::{concat2, concat4, decimal, string_of, chars_of, u64_to_decimal};

verus! {

/// Errors of the library.
#[derive(Debug)]
pub enum AppError {
    /// The configuration is incomplete or invalid.
    Config(String),
    /// The HTTP exchange itself failed (connection, timeout, unreadable body).
    Network(String),
    /// YouTrack answered with a non-success status.
    Api { status: u16, message: String },
    /// The caller's request is invalid.
    Bad(String),
}

/// The mathematical value of an [`AppError`].
pub enum AppErrorV {
    Config(Seq<char>),
    Network(Seq<char>),
    Api(u16, Seq<char>),
    Bad(Seq<char>),
}

impl View for AppError {
    type V = AppErrorV;

    open spec fn view(&self) -> AppErrorV {
        match self {
            AppError::Config(m) => AppErrorV::Config(m@),
            AppError::Network(m) => AppErrorV::Network(m@),
            AppError::Api { status, message } => AppErrorV::Api(*status, message@),
            AppError::Bad(m) => AppErrorV::Bad(m@),
        }
    }
}

/// The mathematical value of a result of the library.
pub open spec fn rv<T: View>(r: Result<T, AppError>) -> Result<T::V, AppErrorV> {
    match r {
        Ok(v) => Ok(v@),
        Err(e) => Err(e@),
    }
}

/// The one-line message of an error (what its `Display` would print).
pub open spec fn error_text(e: AppError) -> Seq<char> {
    match e {
        AppError::Config(m) => "config error: "@ + m@,
        AppError::Network(m) => "network error: "@ + m@,
        AppError::Api { status, message } => "YouTrack "@ + decimal(status as int) + ": "@ + message@,
        AppError::Bad(m) => m@,
    }
}

impl AppError {
    /// The one-line message of this error.
    pub fn message(&self) -> (r: String)
        ensures
            r@ == error_text(*self),
    {
        match self {
            AppError::Config(m) => concat2("config error: ", m.as_str()),
            AppError::Network(m) => concat2("network error: ", m.as_str()),
            AppError::Api { status, message } => {
                let s = u64_to_decimal(*status as u64);
                concat4("YouTrack ", s.as_str(), ": ", message.as_str())
            },
            AppError::Bad(m) => string_of(&chars_of(m.as_str())),
        }
    }
}

/// The class of a tool-call error as the MCP protocol reports it.
#[derive(Debug, Clone, Copy, PartialEq, Eq, Structural)]
pub enum ErrorCode {
    InvalidParams,
    ResourceNotFound,
    InternalError,
}

/// An error as a tool call returns it: its protocol class and its message.
#[derive(Debug)]
pub struct ToolError {
    pub code: ErrorCode,
    pub message: String,
}

/// How an [`AppError`] is reported to the MCP client: a bad request is an
/// invalid-params error with its own message, a YouTrack 404 is
/// resource-not-found, anything else is an internal error with the error's
/// message.
pub open spec fn tool_error_of(e: AppError) -> (ErrorCode, Seq<char>) {
    match e {
        AppError::Bad(m) => (ErrorCode::InvalidParams, m@),
        AppError::Api { status, message } => if status == 404 {
            (ErrorCode::ResourceNotFound, "YouTrack 404: "@ + message@)
        } else {
            (ErrorCode::InternalError, error_text(e))
        },
        _ => (ErrorCode::InternalError, error_text(e)),
    }
}

impl AppError {
    /// Converts this error to the form a tool call reports.
    pub fn to_tool_error(&self) -> (r: ToolError)
        ensures
            (r.code, r.message@) == tool_error_of(*self),
    {
        match self {
            AppError::Bad(m) => ToolError {
                code: ErrorCode::InvalidParams,
                message: string_of(&chars_of(m.as_str())),
            },
            AppError::Api { status, message } => {
                if *status == 404 {
                    ToolError {
                        code: ErrorCode::ResourceNotFound,
                        message: concat2("YouTrack 404: ", message.as_str()),
                    }
                } else {
                    ToolError { code: ErrorCode::InternalError, message: self.message() }
                }
            },
            _ => ToolError { code: ErrorCode::InternalError, message: self.message() },
        }
    }
}

/// An invalid-params tool error with message `msg`.
pub fn invalid_params(msg: &str) -> (r: ToolError)
    ensures
        r.code == ErrorCode::InvalidParams,
        r.message@ == msg@,
{
    ToolError { code: ErrorCode::InvalidParams, message: string_of(&chars_of(msg)) }
}

/// An internal tool error with message `msg`.
pub fn internal_error(msg: &str) -> (r: ToolError)
    ensures
        r.code == ErrorCode::InternalError,
        r.message@ == msg@,
{
    ToolError { code: ErrorCode::InternalError, message: string_of(&chars_of(msg)) }
}

/// A request error with message `msg`.
pub fn bad(msg: &str) -> (r: AppError)
    ensures
        r matches AppError::Bad(m) && m@ == msg@,
{
    AppError::Bad(string_of(&chars_of(msg)))
}

} // verus!
