//! The service-wide error type: its variants, the helper constructors for
//! common failures, and how each error is presented to HTTP and GraphQL
//! clients (status, code, message, help and details).
use vstd::prelude::*;
use crate::text::{owned, u64_to_string, dec};

verus! {

/// Errors raised by the services. Payloads that the services build from other
/// error values hold those values' rendered messages.
#[derive(Debug, Clone, PartialEq, Eq)]
pub enum AppError {
    ConfigError(String),
    DatabaseError(String),
    GraphQLError(String),
    ServerError(String),
    ValidationError(String),
    NotFoundError(String),
    AuthenticationError(String),
    AuthorizationError(String),
    RateLimitError(String),
    InputError(String),
    CryptoError(String),
    NetworkError(String),
    ResourceExistsError(String),
}

/// Results of service operations.
pub type AppResult<T> = Result<T, AppError>;

/// The payload carried by any variant.
pub open spec fn payload(e: AppError) -> Seq<char> {
    match e {
        AppError::ConfigError(m) => m@,
        AppError::DatabaseError(m) => m@,
        AppError::GraphQLError(m) => m@,
        AppError::ServerError(m) => m@,
        AppError::ValidationError(m) => m@,
        AppError::NotFoundError(m) => m@,
        AppError::AuthenticationError(m) => m@,
        AppError::AuthorizationError(m) => m@,
        AppError::RateLimitError(m) => m@,
        AppError::InputError(m) => m@,
        AppError::CryptoError(m) => m@,
        AppError::NetworkError(m) => m@,
        AppError::ResourceExistsError(m) => m@,
    }
}

/// The prefix that the human-readable rendering puts before the payload.
pub open spec fn display_prefix(e: AppError) -> Seq<char> {
    match e {
        AppError::ConfigError(_) => "Configuration error: "@,
        AppError::DatabaseError(_) => "Database error: "@,
        AppError::GraphQLError(_) => "GraphQL error: "@,
        AppError::ServerError(_) => "Server error: "@,
        AppError::ValidationError(_) => "Validation error: "@,
        AppError::NotFoundError(_) => "Not found: "@,
        AppError::AuthenticationError(_) => "Authentication error: "@,
        AppError::AuthorizationError(_) => "Authorization error: "@,
        AppError::RateLimitError(_) => "RateLimitError error: "@,
        AppError::InputError(_) => "InputError error: "@,
        AppError::CryptoError(_) => "CryptoError error: "@,
        AppError::NetworkError(_) => "NetworkError error: "@,
        AppError::ResourceExistsError(_) => "ResourceExistsError error: "@,
    }
}

/// Message of the `account_locked` error for a lock of `seconds`.
pub open spec fn account_locked_msg(seconds: nat) -> Seq<char> {
    "Your account has been temporarily locked for security. Please try again in "@ + dec(seconds)
        + " seconds or reset your password."@
}

/// Message of the `resource_not_found` error.
pub open spec fn not_found_msg(resource_type: Seq<char>, identifier: Seq<char>) -> Seq<char> {
    resource_type + " with identifier '"@ + identifier + "' was not found."@
}

/// Message of the `resource_exists` error.
pub open spec fn exists_msg(resource_type: Seq<char>, identifier: Seq<char>) -> Seq<char> {
    resource_type + " with identifier '"@ + identifier + "' already exists."@
}

/// Message of the `validation` error.
pub open spec fn validation_msg(field: Seq<char>, message: Seq<char>) -> Seq<char> {
    "Validation failed for '"@ + field + "': "@ + message
}

/// Message of the `database_operation_failed` error.
pub open spec fn db_failed_msg(operation: Seq<char>, resource: Seq<char>) -> Seq<char> {
    "Database operation '"@ + operation + "' failed on resource '"@ + resource + "'"@
}

/// HTTP status, client message, error code and help text of an error response.
pub open spec fn response_fields(e: AppError) -> (u16, Seq<char>, Seq<char>, Option<Seq<char>>) {
    match e {
        AppError::ConfigError(_) => (500, "System configuration error"@, "CONFIG_ERROR"@, None),
        AppError::DatabaseError(_) => (500, "Database operation failed"@, "DB_ERROR"@, None),
        AppError::ValidationError(m) => (400, m@, "VALIDATION_ERROR"@, Some("Please review your input and try again."@)),
        AppError::NotFoundError(m) => (404, m@, "NOT_FOUND"@, Some("The requested resource was not found."@)),
        AppError::AuthenticationError(m) => (401, m@, "AUTH_ERROR"@, Some("Please log in to access this resource."@)),
        AppError::AuthorizationError(m) => (403, m@, "FORBIDDEN"@, Some("You don't have permission to access this resource."@)),
        AppError::RateLimitError(m) => (429, m@, "RATE_LIMIT"@, Some("Please try again later."@)),
        _ => (500, "Internal server error"@, "SERVER_ERROR"@, None),
    }
}

/// Status line text for the statuses that error responses use.
pub open spec fn status_line(status: u16) -> Seq<char> {
    if status == 400 { "400 Bad Request"@ }
    else if status == 401 { "401 Unauthorized"@ }
    else if status == 403 { "403 Forbidden"@ }
    else if status == 404 { "404 Not Found"@ }
    else if status == 429 { "429 Too Many Requests"@ }
    else { "500 Internal Server Error"@ }
}

/// Code and details of the GraphQL field error for an error.
pub open spec fn field_fields(e: AppError) -> (Seq<char>, Seq<char>) {
    match e {
        AppError::ValidationError(m) => ("VALIDATION_ERROR"@, m@),
        AppError::AuthenticationError(m) => ("AUTHENTICATION_ERROR"@, m@),
        AppError::AuthorizationError(m) => ("AUTHORIZATION_ERROR"@, m@),
        AppError::NotFoundError(m) => ("NOT_FOUND_ERROR"@, m@),
        AppError::DatabaseError(_) => ("DATABASE_ERROR"@, "A database error occurred"@),
        AppError::ConfigError(_) => ("CONFIG_ERROR"@, "A configuration error occurred"@),
        AppError::ServerError(_) => ("SERVER_ERROR"@, "An internal server error occurred"@),
        AppError::GraphQLError(m) => ("GRAPHQL_ERROR"@, m@),
        _ => ("UNKNOWN_ERROR"@, "An unknown error occurred"@),
    }
}

/// Severity with which an error is logged.
#[derive(Debug, Clone, Copy, PartialEq, Eq)]
pub enum LogLevel {
    Error,
    Warn,
    Info,
}

/// Body of an error response sent to HTTP clients.
#[derive(Debug, Clone)]
pub struct ErrorResponse {
    pub status: String,
    pub message: String,
    pub code: String,
    pub details: Option<String>,
    pub help: Option<String>,
}

/// What a GraphQL client receives for an error: message and extensions.
#[derive(Debug, Clone)]
pub struct FieldErrorParts {
    pub message: String,
    pub code: String,
    pub details: String,
}

fn opt_owned(s: Option<&str>) -> (r: Option<String>)
    ensures
        s is None <==> r is None,
        s matches Some(x) ==> r->0@ == x@,
{
    match s {
        Some(x) => Some(owned(x)),
        None => None,
    }
}

impl AppError {
    /// Wrong username or password.
    pub fn invalid_credentials() -> (e: Self)
        ensures
            e is AuthenticationError,
            e->AuthenticationError_0@ == "Invalid username or password. Please check your credentials and try again."@,
    {
        AppError::AuthenticationError(owned("Invalid username or password. Please check your credentials and try again."))
    }

    /// Account locked for `seconds`.
    pub fn account_locked(seconds: u64) -> (e: Self)
        ensures
            e is RateLimitError,
            e->RateLimitError_0@ == account_locked_msg(seconds as nat),
    {
        let mut m = owned("Your account has been temporarily locked for security. Please try again in ");
        let n = u64_to_string(seconds);
        m.append(n.as_str());
        m.append(" seconds or reset your password.");
        AppError::RateLimitError(m)
    }

    /// Session expired.
    pub fn token_expired() -> (e: Self)
        ensures
            e is AuthenticationError,
            e->AuthenticationError_0@ == "Your session has expired. Please log in again to continue."@,
    {
        AppError::AuthenticationError(owned("Your session has expired. Please log in again to continue."))
    }

    /// Token not valid.
    pub fn token_invalid() -> (e: Self)
        ensures
            e is AuthenticationError,
            e->AuthenticationError_0@ == "Invalid authentication token. Please log in again."@,
    {
        AppError::AuthenticationError(owned("Invalid authentication token. Please log in again."))
    }

    /// A resource was not found.
    pub fn resource_not_found(resource_type: &str, identifier: &str) -> (e: Self)
        ensures
            e is NotFoundError,
            e->NotFoundError_0@ == not_found_msg(resource_type@, identifier@),
    {
        let mut m = owned(resource_type);
        m.append(" with identifier '");
        m.append(identifier);
        m.append("' was not found.");
        AppError::NotFoundError(m)
    }

    /// A resource already exists.
    pub fn resource_exists(resource_type: &str, identifier: &str) -> (e: Self)
        ensures
            e is ResourceExistsError,
            e->ResourceExistsError_0@ == exists_msg(resource_type@, identifier@),
    {
        let mut m = owned(resource_type);
        m.append(" with identifier '");
        m.append(identifier);
        m.append("' already exists.");
        AppError::ResourceExistsError(m)
    }

    /// A field failed validation.
    pub fn validation(field: &str, message: &str) -> (e: Self)
        ensures
            e is ValidationError,
            e->ValidationError_0@ == validation_msg(field@, message@),
    {
        let mut m = owned("Validation failed for '");
        m.append(field);
        m.append("': ");
        m.append(message);
        AppError::ValidationError(m)
    }

    /// A database operation failed.
    pub fn database_operation_failed(operation: &str, resource: &str) -> (e: Self)
        ensures
            e is DatabaseError,
            e->DatabaseError_0@ == db_failed_msg(operation@, resource@),
    {
        let mut m = owned("Database operation '");
        m.append(operation);
        m.append("' failed on resource '");
        m.append(resource);
        m.append("'");
        AppError::DatabaseError(m)
    }

    /// A resource already exists with the given value of a field.
    pub fn resource_exists_with(resource_type: &str, field: &str, value: &str) -> (e: Self)
        ensures
            e is ResourceExistsError,
            e->ResourceExistsError_0@ == resource_type@ + " with "@ + field@ + " '"@ + value@ + "' already exists."@,
    {
        let mut m = owned(resource_type);
        m.append(" with ");
        m.append(field);
        m.append(" '");
        m.append(value);
        m.append("' already exists.");
        AppError::ResourceExistsError(m)
    }

    /// The human-readable rendering of the error.
    pub fn to_display_string(&self) -> (s: String)
        ensures
            s@ == display_prefix(*self) + payload(*self),
    {
        let (prefix, m) = match self {
            AppError::ConfigError(m) => ("Configuration error: ", m),
            AppError::DatabaseError(m) => ("Database error: ", m),
            AppError::GraphQLError(m) => ("GraphQL error: ", m),
            AppError::ServerError(m) => ("Server error: ", m),
            AppError::ValidationError(m) => ("Validation error: ", m),
            AppError::NotFoundError(m) => ("Not found: ", m),
            AppError::AuthenticationError(m) => ("Authentication error: ", m),
            AppError::AuthorizationError(m) => ("Authorization error: ", m),
            AppError::RateLimitError(m) => ("RateLimitError error: ", m),
            AppError::InputError(m) => ("InputError error: ", m),
            AppError::CryptoError(m) => ("CryptoError error: ", m),
            AppError::NetworkError(m) => ("NetworkError error: ", m),
            AppError::ResourceExistsError(m) => ("ResourceExistsError error: ", m),
        };
        let mut s = owned(prefix);
        s.append(m.as_str());
        s
    }

    /// HTTP status code of the response for this error.
    pub fn status_code(&self) -> (c: u16)
        ensures
            c == response_fields(*self).0,
    {
        match self {
            AppError::ValidationError(_) => 400,
            AppError::NotFoundError(_) => 404,
            AppError::AuthenticationError(_) => 401,
            AppError::AuthorizationError(_) => 403,
            AppError::RateLimitError(_) => 429,
            _ => 500,
        }
    }

    /// The response sent to HTTP clients: internal details are withheld for
    /// server errors and the full rendering is given otherwise.
    pub fn error_response(&self) -> (r: ErrorResponse)
        ensures
            r.status@ == status_line(response_fields(*self).0),
            r.message@ == response_fields(*self).1,
            r.code@ == response_fields(*self).2,
            r.help is None <==> response_fields(*self).3 is None,
            r.help matches Some(h) ==> h@ == response_fields(*self).3->0,
            response_fields(*self).0 == 500 ==> r.details is None,
            response_fields(*self).0 != 500 ==> (r.details matches Some(d) && d@ == display_prefix(*self) + payload(*self)),
    {
        let (message, code, help): (&str, &str, Option<&str>) = match self {
            AppError::ConfigError(_) => ("System configuration error", "CONFIG_ERROR", None),
            AppError::DatabaseError(_) => ("Database operation failed", "DB_ERROR", None),
            AppError::ValidationError(m) => (m.as_str(), "VALIDATION_ERROR", Some("Please review your input and try again.")),
            AppError::NotFoundError(m) => (m.as_str(), "NOT_FOUND", Some("The requested resource was not found.")),
            AppError::AuthenticationError(m) => (m.as_str(), "AUTH_ERROR", Some("Please log in to access this resource.")),
            AppError::AuthorizationError(m) => (m.as_str(), "FORBIDDEN", Some("You don't have permission to access this resource.")),
            AppError::RateLimitError(m) => (m.as_str(), "RATE_LIMIT", Some("Please try again later.")),
            _ => ("Internal server error", "SERVER_ERROR", None),
        };
        let status = self.status_code();
        let status_text = if status == 400 { "400 Bad Request" }
            else if status == 401 { "401 Unauthorized" }
            else if status == 403 { "403 Forbidden" }
            else if status == 404 { "404 Not Found" }
            else if status == 429 { "429 Too Many Requests" }
            else { "500 Internal Server Error" };
        let details = if status == 500 { None } else { Some(self.to_display_string()) };
        ErrorResponse {
            status: owned(status_text),
            message: owned(message),
            code: owned(code),
            details,
            help: opt_owned(help),
        }
    }

    /// Severity with which the HTTP layer logs the error: server errors as
    /// errors, the others as warnings.
    pub fn response_log_level(&self) -> (l: LogLevel)
        ensures
            l == (if response_fields(*self).0 >= 500 { LogLevel::Error } else { LogLevel::Warn }),
    {
        if self.status_code() >= 500 { LogLevel::Error } else { LogLevel::Warn }
    }

    /// Message, code and details of the GraphQL field error.
    pub fn field_error_parts(&self) -> (r: FieldErrorParts)
        ensures
            r.message@ == display_prefix(*self) + payload(*self),
            r.code@ == field_fields(*self).0,
            r.details@ == field_fields(*self).1,
    {
        let (code, details): (&str, &str) = match self {
            AppError::ValidationError(m) => ("VALIDATION_ERROR", m.as_str()),
            AppError::AuthenticationError(m) => ("AUTHENTICATION_ERROR", m.as_str()),
            AppError::AuthorizationError(m) => ("AUTHORIZATION_ERROR", m.as_str()),
            AppError::NotFoundError(m) => ("NOT_FOUND_ERROR", m.as_str()),
            AppError::DatabaseError(_) => ("DATABASE_ERROR", "A database error occurred"),
            AppError::ConfigError(_) => ("CONFIG_ERROR", "A configuration error occurred"),
            AppError::ServerError(_) => ("SERVER_ERROR", "An internal server error occurred"),
            AppError::GraphQLError(m) => ("GRAPHQL_ERROR", m.as_str()),
            _ => ("UNKNOWN_ERROR", "An unknown error occurred"),
        };
        FieldErrorParts { message: self.to_display_string(), code: owned(code), details: owned(details) }
    }

    /// Severity with which a GraphQL resolver error is logged.
    pub fn field_log_level(&self) -> (l: LogLevel)
        ensures
            l == (match *self {
                AppError::ServerError(_) | AppError::DatabaseError(_) | AppError::ConfigError(_) => LogLevel::Error,
                AppError::ValidationError(_) | AppError::NotFoundError(_) => LogLevel::Info,
                _ => LogLevel::Warn,
            }),
    {
        match self {
            AppError::ServerError(_) | AppError::DatabaseError(_) | AppError::ConfigError(_) => LogLevel::Error,
            AppError::ValidationError(_) | AppError::NotFoundError(_) => LogLevel::Info,
            _ => LogLevel::Warn,
        }
    }
}

/// Turns failures carried as rendered messages into service errors.
pub trait AppErrorExt<T>: Sized {
    /// The failure as a configuration error.
    fn config_err(self) -> Result<T, AppError>;

    /// The failure as a database error.
    fn db_err(self) -> Result<T, AppError>;

    /// The failure as a server error.
    fn server_err(self) -> Result<T, AppError>;
}

impl<T> AppErrorExt<T> for Result<T, String> {
    fn config_err(self) -> (r: Result<T, AppError>)
        ensures
            match self {
                Ok(v) => r == Ok::<T, AppError>(v),
                Err(m) => r == Err::<T, AppError>(AppError::ConfigError(m)),
            },
    {
        match self {
            Ok(v) => Ok(v),
            Err(m) => Err(AppError::ConfigError(m)),
        }
    }

    fn db_err(self) -> (r: Result<T, AppError>)
        ensures
            match self {
                Ok(v) => r == Ok::<T, AppError>(v),
                Err(m) => r == Err::<T, AppError>(AppError::DatabaseError(m)),
            },
    {
        match self {
            Ok(v) => Ok(v),
            Err(m) => Err(AppError::DatabaseError(m)),
        }
    }

    fn server_err(self) -> (r: Result<T, AppError>)
        ensures
            match self {
                Ok(v) => r == Ok::<T, AppError>(v),
                Err(m) => r == Err::<T, AppError>(AppError::ServerError(m)),
            },
    {
        match self {
            Ok(v) => Ok(v),
            Err(m) => Err(AppError::ServerError(m)),
        }
    }
}

} // verus!
