//! What the database layer logs: operations, security events, and the
//! masking of sensitive values. Each function returns the record to emit.
use vstd::prelude::*;
use crate::text::{chars_of, owned};

verus! {

/// Kinds of database operations.
#[derive(Debug, Clone, Copy, PartialEq, Eq, Structural)]
pub enum DbOperation {
    Connect,
    Query,
    Create,
    Update,
    Delete,
    Select,
    Authenticate,
    Authorize,
}

/// The lowercase name of an operation.
pub open spec fn operation_name(op: DbOperation) -> Seq<char> {
    match op {
        DbOperation::Connect => "connect"@,
        DbOperation::Query => "query"@,
        DbOperation::Create => "create"@,
        DbOperation::Update => "update"@,
        DbOperation::Delete => "delete"@,
        DbOperation::Select => "select"@,
        DbOperation::Authenticate => "authenticate"@,
        DbOperation::Authorize => "authorize"@,
    }
}

impl DbOperation {
    /// The lowercase name of the operation.
    pub fn to_display_string(&self) -> (s: String)
        ensures
            s@ == operation_name(*self),
    {
        match self {
            DbOperation::Connect => owned("connect"),
            DbOperation::Query => owned("query"),
            DbOperation::Create => owned("create"),
            DbOperation::Update => owned("update"),
            DbOperation::Delete => owned("delete"),
            DbOperation::Select => owned("select"),
            DbOperation::Authenticate => owned("authenticate"),
            DbOperation::Authorize => owned("authorize"),
        }
    }
}

/// Level of a log record.
#[derive(Debug, Clone, Copy, PartialEq, Eq, Structural)]
pub enum LogLevel {
    Info,
    Warn,
}

/// A log record: level, message, and named fields (absent values stay absent).
#[derive(Debug, Clone)]
pub struct LogRecord {
    pub level: LogLevel,
    pub message: String,
    pub fields: Vec<(String, Option<String>)>,
}

/// An optional string slice as an optional character sequence.
pub open spec fn opt_str(o: Option<&str>) -> Option<Seq<char>> {
    match o {
        Some(s) => Some(s@),
        None => None,
    }
}

/// An optional string as an optional character sequence.
pub open spec fn opt_string(o: Option<String>) -> Option<Seq<char>> {
    match o {
        Some(s) => Some(s@),
        None => None,
    }
}

/// The fields of a record by name and value.
pub open spec fn field_views(f: Seq<(String, Option<String>)>) -> Seq<(Seq<char>, Option<Seq<char>>)> {
    f.map_values(|e: (String, Option<String>)| (e.0@, opt_string(e.1)))
}

fn opt_owned(o: Option<&str>) -> (r: Option<String>)
    ensures
        opt_string(r) == opt_str(o),
{
    match o {
        Some(s) => Some(owned(s)),
        None => None,
    }
}

/// The record of a database operation: information when it succeeded, a
/// warning when it failed.
pub fn log_db_operation(operation: DbOperation, table: &str, user_id: Option<&str>, record_id: Option<&str>, success: bool) -> (r: LogRecord)
    ensures
        r.level == (if success { LogLevel::Info } else { LogLevel::Warn }),
        r.message@ == (if success { "Database operation succeeded"@ } else { "Database operation failed"@ }),
        field_views(r.fields@) == seq![
            ("operation"@, Some(operation_name(operation))),
            ("table"@, Some(table@)),
            ("user_id"@, opt_str(user_id)),
            ("record_id"@, opt_str(record_id)),
        ],
{
    let fields = vec![
        (owned("operation"), Some(operation.to_display_string())),
        (owned("table"), Some(owned(table))),
        (owned("user_id"), opt_owned(user_id)),
        (owned("record_id"), opt_owned(record_id)),
    ];
    assert(field_views(fields@) =~= seq![
        ("operation"@, Some(operation_name(operation))),
        ("table"@, Some(table@)),
        ("user_id"@, opt_str(user_id)),
        ("record_id"@, opt_str(record_id)),
    ]);
    if success {
        LogRecord { level: LogLevel::Info, message: owned("Database operation succeeded"), fields }
    } else {
        LogRecord { level: LogLevel::Warn, message: owned("Database operation failed"), fields }
    }
}

/// The record of a security event: information when it succeeded, a warning
/// when it failed.
pub fn log_security_event(
    event_type: &str,
    user_id: &str,
    resource: Option<&str>,
    operation: Option<&str>,
    success: bool,
    details: Option<&str>,
) -> (r: LogRecord)
    ensures
        r.level == (if success { LogLevel::Info } else { LogLevel::Warn }),
        r.message@ == (if success { "Security event"@ } else { "Security event failed"@ }),
        field_views(r.fields@) == seq![
            ("event_type"@, Some(event_type@)),
            ("user_id"@, Some(user_id@)),
            ("resource"@, opt_str(resource)),
            ("operation"@, opt_str(operation)),
            ("details"@, opt_str(details)),
        ],
{
    let fields = vec![
        (owned("event_type"), Some(owned(event_type))),
        (owned("user_id"), Some(owned(user_id))),
        (owned("resource"), opt_owned(resource)),
        (owned("operation"), opt_owned(operation)),
        (owned("details"), opt_owned(details)),
    ];
    assert(field_views(fields@) =~= seq![
        ("event_type"@, Some(event_type@)),
        ("user_id"@, Some(user_id@)),
        ("resource"@, opt_str(resource)),
        ("operation"@, opt_str(operation)),
        ("details"@, opt_str(details)),
    ]);
    if success {
        LogRecord { level: LogLevel::Info, message: owned("Security event"), fields }
    } else {
        LogRecord { level: LogLevel::Warn, message: owned("Security event failed"), fields }
    }
}

/// A sensitive value as it may appear in logs: values of at most four
/// characters are fully redacted; longer ones show only their first and last
/// two characters.
pub open spec fn masked(value: Seq<char>) -> Seq<char> {
    if value.len() <= 4 {
        "[REDACTED]"@
    } else {
        value.subrange(0, 2) + "****"@ + value.subrange(value.len() - 2, value.len() as int)
    }
}

/// Masks a sensitive value for logging.
pub fn sanitize_for_logging(value: &str) -> (r: String)
    ensures
        r@ == masked(value@),
{
    let v = chars_of(value);
    let n = v.len();
    if n <= 4 {
        return owned("[REDACTED]");
    }
    let shown: Vec<char> = vec![v[0], v[1], '*', '*', '*', '*', v[n - 2], v[n - 1]];
    proof {
        reveal_strlit("****");
        assert(shown@ =~= value@.subrange(0, 2) + "****"@ + value@.subrange(n - 2, n as int));
    }
    crate::text::string_from_chars(shown.as_slice())
}

} // verus!
