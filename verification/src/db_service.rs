//! The checks and bookkeeping of the database service around the driver:
//! the connection pool's idle list, credentials that never show their
//! password, the checks on names before a statement is built, the statement
//! of a lookup by field, the checks on custom queries, and the context added
//! to driver errors.
use vstd::prelude::*;
use crate::authz::{is_ascii_letter, valid_identifier};
use crate::error::AppError;
use crate::text::{blank, has_prefix, has_infix, owned, is_blank, starts_with, contains};

verus! {

/// Idle connections kept for reuse, never more than `max_size`.
pub struct ConnectionPool<C> {
    connection_url: String,
    connections: Vec<C>,
    max_size: usize,
}

impl<C> ConnectionPool<C> {
    /// The idle connections, oldest first.
    pub closed spec fn idle(&self) -> Seq<C> {
        self.connections@
    }

    /// Where connections are opened.
    pub closed spec fn url(&self) -> Seq<char> {
        self.connection_url@
    }

    /// The most idle connections kept.
    pub closed spec fn size(&self) -> usize {
        self.max_size
    }

    /// The pool never holds more idle connections than its size.
    pub closed spec fn wf(&self) -> bool {
        self.connections@.len() <= self.max_size
    }

    /// Where connections are opened.
    pub fn connection_url(&self) -> (s: &str)
        ensures
            s@ == self.url(),
    {
        self.connection_url.as_str()
    }

    /// An empty pool for `connection_url` keeping at most `max_size` idle connections.
    pub fn new(connection_url: &str, max_size: usize) -> (p: Self)
        ensures
            p.wf(),
            p.url() == connection_url@,
            p.size() == max_size,
            p.idle().len() == 0,
    {
        ConnectionPool { connection_url: owned(connection_url), connections: Vec::new(), max_size }
    }

    /// The most recently returned idle connection, if any.
    pub fn take_idle(&mut self) -> (c: Option<C>)
        requires
            old(self).wf(),
        ensures
            final(self).wf(),
            final(self).size() == old(self).size(),
            final(self).url() == old(self).url(),
            old(self).idle().len() == 0 ==> c is None && final(self).idle() == old(self).idle(),
            old(self).idle().len() > 0 ==> c == Some(old(self).idle().last())
                && final(self).idle() == old(self).idle().drop_last(),
    {
        self.connections.pop()
    }

    /// Keeps a connection for reuse when the pool has room; otherwise it is dropped.
    pub fn return_connection(&mut self, conn: C)
        requires
            old(self).wf(),
        ensures
            final(self).wf(),
            final(self).size() == old(self).size(),
            final(self).url() == old(self).url(),
            old(self).idle().len() < old(self).size() ==> final(self).idle() == old(self).idle().push(conn),
            old(self).idle().len() >= old(self).size() ==> final(self).idle() == old(self).idle(),
    {
        if self.connections.len() < self.max_size {
            self.connections.push(conn);
        }
    }
}

/// Law: a pool never keeps more idle connections than its size, however
/// connections are taken and returned.
pub proof fn law_pool_bounded<C>(p: ConnectionPool<C>)
    requires
        p.wf(),
    ensures
        p.idle().len() <= p.size(),
{
}

/// Database credentials whose password is never shown.
#[derive(Clone)]
pub struct DbCredentials {
    username: String,
    password: String,
}

impl DbCredentials {
    /// The user name.
    pub closed spec fn username_view(&self) -> Seq<char> {
        self.username@
    }

    /// The password.
    pub closed spec fn password_view(&self) -> Seq<char> {
        self.password@
    }

    /// Credentials from a user name and password.
    pub fn new(username: &str, password: &str) -> (c: Self)
        ensures
            c.username_view() == username@,
            c.password_view() == password@,
    {
        DbCredentials { username: owned(username), password: owned(password) }
    }

    /// The user name.
    pub fn get_username(&self) -> (s: &str)
        ensures
            s@ == self.username_view(),
    {
        self.username.as_str()
    }

    /// The password.
    pub fn get_password(&self) -> (s: &str)
        ensures
            s@ == self.password_view(),
    {
        self.password.as_str()
    }

    /// The debug form: the user name, and the password redacted.
    pub fn debug_string(&self) -> (s: String)
        ensures
            s@ == "DbCredentials { username: "@ + self.username_view() + ", password: \"[REDACTED]\" }"@,
    {
        let mut s = owned("DbCredentials { username: ");
        s.append(self.username.as_str());
        s.append(", password: \"[REDACTED]\" }");
        s
    }
}

/// A connection URL of a known form: `ws://`, `wss://` or `memory`.
pub open spec fn known_url_form(url: Seq<char>) -> bool {
    has_prefix(url, "ws://"@) || has_prefix(url, "wss://"@) || has_prefix(url, "memory"@)
}

/// Whether a connection URL has a known form (others are logged as suspicious).
pub fn connection_url_looks_valid(url: &str) -> (b: bool)
    ensures
        b == known_url_form(url@),
{
    starts_with(url, "ws://") || starts_with(url, "wss://") || starts_with(url, "memory")
}

/// The namespace and database names that a connection selects must not be blank.
pub fn check_namespace_and_database(namespace: &str, database: &str) -> (r: Result<(), AppError>)
    ensures
        blank(namespace@) ==> (r is Err && r->Err_0 is ValidationError
            && r->Err_0->ValidationError_0@ == "Database namespace cannot be empty"@),
        !blank(namespace@) && blank(database@) ==> (r is Err && r->Err_0 is ValidationError
            && r->Err_0->ValidationError_0@ == "Database name cannot be empty"@),
        r is Ok <==> !blank(namespace@) && !blank(database@),
{
    if is_blank(namespace) {
        return Err(AppError::ValidationError(owned("Database namespace cannot be empty")));
    }
    if is_blank(database) {
        return Err(AppError::ValidationError(owned("Database name cannot be empty")));
    }
    Ok(())
}

/// Whether `char::is_alphanumeric` holds (Unicode alphabetic or numeric).
pub uninterp spec fn unicode_alphanumeric(c: char) -> bool;

/// `char::is_alphanumeric`: named; on ASCII it holds of letters and digits only.
#[verifier::external_body]
fn char_is_alphanumeric(c: char) -> (b: bool)
    ensures
        b == unicode_alphanumeric(c),
        (c as u32) < 128 ==> (b == (is_ascii_letter(c) || ('0' <= c && c <= '9'))),
{
    c.is_alphanumeric()
}

/// A safe parameter name: alphanumeric characters and underscores only.
pub open spec fn valid_param_name(name: Seq<char>) -> bool {
    forall|i: int| 0 <= i < name.len() ==> #[trigger] unicode_alphanumeric(name[i]) || name[i] == '_'
}

/// The message of an unsafe identifier.
pub open spec fn identifier_message(identifier: Seq<char>) -> Seq<char> {
    "Invalid identifier '"@ + identifier
        + "': must start with a letter or underscore and contain only alphanumeric characters and underscores"@
}

/// Checks that an identifier is safe to place in a statement.
pub fn validate_identifier(identifier: &str) -> (r: Result<(), AppError>)
    ensures
        valid_identifier(identifier@) ==> r is Ok,
        !valid_identifier(identifier@) ==> (r is Err && r->Err_0 is ValidationError
            && r->Err_0->ValidationError_0@ == identifier_message(identifier@)),
{
    if !crate::authz::is_valid_identifier(identifier) {
        let mut m = owned("Invalid identifier '");
        m.append(identifier);
        m.append("': must start with a letter or underscore and contain only alphanumeric characters and underscores");
        return Err(AppError::ValidationError(m));
    }
    Ok(())
}

/// The statement of a lookup of records of `table` by `field`, the value
/// bound as `$value`: the field and then the table must be safe identifiers.
pub fn records_by_field_statement(table: &str, field: &str) -> (r: Result<String, AppError>)
    ensures
        !valid_identifier(field@) ==> (r is Err && r->Err_0 is ValidationError
            && r->Err_0->ValidationError_0@ == identifier_message(field@)),
        valid_identifier(field@) && !valid_identifier(table@) ==> (r is Err && r->Err_0 is ValidationError
            && r->Err_0->ValidationError_0@ == identifier_message(table@)),
        valid_identifier(field@) && valid_identifier(table@) ==> (r is Ok
            && r->Ok_0@ == "SELECT * FROM "@ + table@ + " WHERE "@ + field@ + " = $value"@),
{
    validate_identifier(field)?;
    validate_identifier(table)?;
    let mut sql = owned("SELECT * FROM ");
    sql.append(table);
    sql.append(" WHERE ");
    sql.append(field);
    sql.append(" = $value");
    Ok(sql)
}

/// The statement uses string interpolation instead of parameters.
pub open spec fn interpolates(sql: Seq<char>) -> bool {
    has_infix(sql, "${"@) || has_infix(sql, "'+"@)
}

/// Checks a custom query before it is sent: no interpolation in the
/// statement, and every parameter name safe (the first unsafe one is reported).
pub fn check_custom_query(sql: &str, param_names: &Vec<String>) -> (r: Result<(), AppError>)
    ensures
        interpolates(sql@) ==> (r is Err && r->Err_0 is ValidationError
            && r->Err_0->ValidationError_0@ == "Custom SQL queries must use parameterized queries ($param) for security"@),
        !interpolates(sql@) ==> (r is Ok <==> forall|k: int| 0 <= k < param_names@.len() ==> valid_param_name(#[trigger] param_names@[k]@)),
        !interpolates(sql@) && r is Err ==> exists|k: int| 0 <= k < param_names@.len()
            && !valid_param_name(#[trigger] param_names@[k]@)
            && (forall|j: int| 0 <= j < k ==> valid_param_name(#[trigger] param_names@[j]@))
            && r->Err_0 is ValidationError
            && r->Err_0->ValidationError_0@ == "Invalid parameter name '"@ + param_names@[k]@
                + "': must contain only alphanumeric characters and underscores"@,
{
    if contains(sql, "${") || contains(sql, "'+") {
        return Err(AppError::ValidationError(owned(
            "Custom SQL queries must use parameterized queries ($param) for security",
        )));
    }
    let mut k: usize = 0;
    while k < param_names.len()
        invariant
            !interpolates(sql@),
            k <= param_names@.len(),
            forall|j: int| 0 <= j < k ==> valid_param_name(#[trigger] param_names@[j]@),
        decreases param_names.len() - k,
    {
        let name = param_names[k].as_str();
        let v = crate::text::chars_of(name);
        let mut i: usize = 0;
        let mut ok = true;
        while i < v.len()
            invariant
                v@ == name@,
                i <= v@.len(),
                ok == forall|m: int| 0 <= m < i ==> #[trigger] unicode_alphanumeric(v@[m]) || v@[m] == '_',
            decreases v.len() - i,
        {
            let c = v[i];
            let good = char_is_alphanumeric(c) || c == '_';
            ok = ok && good;
            i = i + 1;
        }
        if !ok {
            let mut m = owned("Invalid parameter name '");
            m.append(name);
            m.append("': must contain only alphanumeric characters and underscores");
            return Err(AppError::ValidationError(m));
        }
        k = k + 1;
    }
    Ok(())
}

/// Adds `context` in front of a database error; other errors pass through.
pub fn with_context(e: AppError, context: &str) -> (r: AppError)
    ensures
        e matches AppError::DatabaseError(m) ==> (r is DatabaseError && r->DatabaseError_0@ == context@ + ": "@ + m@),
        !(e is DatabaseError) ==> r == e,
{
    match e {
        AppError::DatabaseError(m) => {
            let mut s = owned(context);
            s.append(": ");
            s.append(m.as_str());
            AppError::DatabaseError(s)
        },
        other => other,
    }
}

/// The context of a failed operation on a table: `Failed to <action> <table> record`.
pub fn context_msg(action: &str, table: &str) -> (s: String)
    ensures
        s@ == "Failed to "@ + action@ + " "@ + table@ + " record"@,
{
    let mut s = owned("Failed to ");
    s.append(action);
    s.append(" ");
    s.append(table);
    s.append(" record");
    s
}

} // verus!
