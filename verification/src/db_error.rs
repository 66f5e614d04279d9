//! Errors of the database layer, the messages that are safe to show to a
//! user, their tracking codes, and how the handler answers each of them.
use vstd::prelude::*;
use crate::text::owned;

verus! {

/// Errors of the database layer. Payloads that come from other errors hold
/// those errors' rendered messages.
#[derive(Debug, Clone, PartialEq, Eq)]
pub enum AppError {
    Database(String),
    ConnectionError(String),
    QueryError(String),
    AuthError(String),
    AccessDenied(String),
    NotFound,
    InvalidInput(String),
    ConfigError(String),
    CredentialError(String),
    Internal(String),
}

/// The message a user may see: no internal detail, except what was wrong with their input.
pub open spec fn user_message_of(e: AppError) -> Seq<char> {
    match e {
        AppError::Database(_) => "Database operation failed"@,
        AppError::ConnectionError(_) => "Database connection failed"@,
        AppError::QueryError(_) => "Database operation failed"@,
        AppError::AuthError(_) => "Authentication failed"@,
        AppError::AccessDenied(_) => "Access denied"@,
        AppError::NotFound => "Resource not found"@,
        AppError::InvalidInput(m) => "Invalid input: "@ + m@,
        AppError::ConfigError(_) => "System configuration error"@,
        AppError::CredentialError(_) => "Credential error"@,
        AppError::Internal(_) => "An internal error occurred"@,
    }
}

/// The tracking code of each kind of error.
pub open spec fn error_code_of(e: AppError) -> Seq<char> {
    match e {
        AppError::Database(_) => "DB_ERR_001"@,
        AppError::ConnectionError(_) => "DB_CONN_001"@,
        AppError::QueryError(_) => "DB_QUERY_001"@,
        AppError::AuthError(_) => "AUTH_001"@,
        AppError::AccessDenied(_) => "ACCESS_001"@,
        AppError::NotFound => "RESOURCE_001"@,
        AppError::InvalidInput(_) => "INPUT_001"@,
        AppError::ConfigError(_) => "CONFIG_001"@,
        AppError::CredentialError(_) => "CRED_001"@,
        AppError::Internal(_) => "INTERNAL_001"@,
    }
}

/// The rendered message: a fixed prefix per kind, then the payload.
pub open spec fn display_of(e: AppError) -> Seq<char> {
    match e {
        AppError::Database(m) => "Database error: "@ + m@,
        AppError::ConnectionError(m) => "Database connection error: "@ + m@,
        AppError::QueryError(m) => "Database query error: "@ + m@,
        AppError::AuthError(m) => "Authentication error: "@ + m@,
        AppError::AccessDenied(m) => "Authorization error: "@ + m@,
        AppError::NotFound => "Resource not found"@,
        AppError::InvalidInput(m) => "Invalid input: "@ + m@,
        AppError::ConfigError(m) => "Configuration error: "@ + m@,
        AppError::CredentialError(m) => "Credential error: "@ + m@,
        AppError::Internal(_) => "Internal server error"@,
    }
}

/// The HTTP status the handler answers with.
pub open spec fn status_of(e: AppError) -> i32 {
    match e {
        AppError::AuthError(_) => 401,
        AppError::AccessDenied(_) => 403,
        AppError::NotFound => 404,
        AppError::InvalidInput(_) => 400,
        _ => 500,
    }
}

/// Severity with which an error is logged.
#[derive(Debug, Clone, Copy, PartialEq, Eq)]
pub enum Severity {
    Info,
    Warn,
    Error,
}

/// How severe each kind of error is.
pub open spec fn severity_of(e: AppError) -> Severity {
    match e {
        AppError::AuthError(_) | AppError::AccessDenied(_) => Severity::Warn,
        AppError::NotFound | AppError::InvalidInput(_) => Severity::Info,
        _ => Severity::Error,
    }
}

fn prefixed(prefix: &str, m: &String) -> (r: String)
    ensures
        r@ == prefix@ + m@,
{
    let mut r = owned(prefix);
    r.append(m.as_str());
    r
}

impl AppError {
    /// A message that is safe to show to the user.
    pub fn user_message(&self) -> (s: String)
        ensures
            s@ == user_message_of(*self),
    {
        match self {
            AppError::Database(_) => owned("Database operation failed"),
            AppError::ConnectionError(_) => owned("Database connection failed"),
            AppError::QueryError(_) => owned("Database operation failed"),
            AppError::AuthError(_) => owned("Authentication failed"),
            AppError::AccessDenied(_) => owned("Access denied"),
            AppError::NotFound => owned("Resource not found"),
            AppError::InvalidInput(msg) => prefixed("Invalid input: ", msg),
            AppError::ConfigError(_) => owned("System configuration error"),
            AppError::CredentialError(_) => owned("Credential error"),
            AppError::Internal(_) => owned("An internal error occurred"),
        }
    }

    /// The code under which the error is tracked.
    pub fn error_code(&self) -> (s: &'static str)
        ensures
            s@ == error_code_of(*self),
    {
        match self {
            AppError::Database(_) => "DB_ERR_001",
            AppError::ConnectionError(_) => "DB_CONN_001",
            AppError::QueryError(_) => "DB_QUERY_001",
            AppError::AuthError(_) => "AUTH_001",
            AppError::AccessDenied(_) => "ACCESS_001",
            AppError::NotFound => "RESOURCE_001",
            AppError::InvalidInput(_) => "INPUT_001",
            AppError::ConfigError(_) => "CONFIG_001",
            AppError::CredentialError(_) => "CRED_001",
            AppError::Internal(_) => "INTERNAL_001",
        }
    }

    /// The rendered message.
    pub fn to_display_string(&self) -> (s: String)
        ensures
            s@ == display_of(*self),
    {
        match self {
            AppError::Database(m) => prefixed("Database error: ", m),
            AppError::ConnectionError(m) => prefixed("Database connection error: ", m),
            AppError::QueryError(m) => prefixed("Database query error: ", m),
            AppError::AuthError(m) => prefixed("Authentication error: ", m),
            AppError::AccessDenied(m) => prefixed("Authorization error: ", m),
            AppError::NotFound => owned("Resource not found"),
            AppError::InvalidInput(m) => prefixed("Invalid input: ", m),
            AppError::ConfigError(m) => prefixed("Configuration error: ", m),
            AppError::CredentialError(m) => prefixed("Credential error: ", m),
            AppError::Internal(_) => owned("Internal server error"),
        }
    }

    /// The severity with which the handler logs the error.
    pub fn severity(&self) -> (l: Severity)
        ensures
            l == severity_of(*self),
    {
        match self {
            AppError::AuthError(_) | AppError::AccessDenied(_) => Severity::Warn,
            AppError::NotFound | AppError::InvalidInput(_) => Severity::Info,
            _ => Severity::Error,
        }
    }
}

/// Turns errors into what a client is told.
pub struct ErrorHandler;

impl ErrorHandler {
    /// The safe message and the HTTP status for an error.
    pub fn handle(error: AppError) -> (r: (String, Option<i32>))
        ensures
            r.0@ == user_message_of(error),
            r.1 == Some(status_of(error)),
    {
        let status: i32 = match &error {
            AppError::AuthError(_) => 401,
            AppError::AccessDenied(_) => 403,
            AppError::NotFound => 404,
            AppError::InvalidInput(_) => 400,
            _ => 500,
        };
        (error.user_message(), Some(status))
    }
}

/// The kind of an error, whatever its payload.
pub open spec fn kind_of(e: AppError) -> nat {
    match e {
        AppError::Database(_) => 0,
        AppError::ConnectionError(_) => 1,
        AppError::QueryError(_) => 2,
        AppError::AuthError(_) => 3,
        AppError::AccessDenied(_) => 4,
        AppError::NotFound => 5,
        AppError::InvalidInput(_) => 6,
        AppError::ConfigError(_) => 7,
        AppError::CredentialError(_) => 8,
        AppError::Internal(_) => 9,
    }
}

/// Law: what a user is told depends only on the kind of error, never on
/// the detail it carries, except that an invalid input is echoed back.
pub proof fn law_user_message_hides_details(e: AppError, f: AppError)
    requires
        kind_of(e) == kind_of(f),
        !(e is InvalidInput),
    ensures
        user_message_of(e) == user_message_of(f),
        status_of(e) == status_of(f),
        error_code_of(e) == error_code_of(f),
{
}

} // verus!
