//! Database credentials that keep their secrets out of debug output, know
//! where they came from and when they were last rotated, and the connection
//! settings and connection manager built on them. Times are milliseconds
//! since the Unix epoch; intervals are milliseconds.
use vstd::prelude::*;
use crate::db_error::AppError;
use crate::text::{ascii_ieq, eq_ignore_ascii_case, owned, str_eq, starts_with, has_prefix, replace_all, replace_str, u64_to_string, dec};
use crate::conn::DatabaseConfig;

verus! {

/// Milliseconds since the Unix epoch from the system clock
/// (`UNIX_EPOCH.elapsed()`, which reads `SystemTime::now`), 0 for a clock set
/// before the epoch. Nothing is promised of the value.
#[verifier::external_body]
fn current_time_millis() -> (t: u64) {
    match std::time::UNIX_EPOCH.elapsed() {
        Ok(d) => d.as_millis() as u64,
        Err(_) => 0,
    }
}

/// Where credentials were loaded from.
#[derive(Debug, Clone, Copy, PartialEq, Eq, Structural)]
pub enum CredentialSource {
    Direct,
    Environment,
    File,
    Vault,
}

/// A secret string; its debug form never shows the contents.
#[derive(Clone)]
pub struct SecureString(String);

impl SecureString {
    /// The secret's characters.
    pub closed spec fn view(&self) -> Seq<char> {
        self.0@
    }

    /// Wraps a secret.
    pub fn new(value: &str) -> (s: Self)
        ensures
            s@ == value@,
    {
        SecureString(owned(value))
    }

    /// Wraps an owned secret.
    pub fn from_string(value: String) -> (s: Self)
        ensures
            s@ == value@,
    {
        SecureString(value)
    }

    /// The secret.
    pub fn as_str(&self) -> (s: &str)
        ensures
            s@ == self@,
    {
        self.0.as_str()
    }

    /// The debug form: always `[REDACTED]`.
    pub fn debug_string(&self) -> (s: String)
        ensures
            s@ == "[REDACTED]"@,
    {
        owned("[REDACTED]")
    }
}

/// Database credentials with their source and rotation schedule.
#[derive(Clone)]
pub struct DatabaseCredentials {
    username: SecureString,
    password: SecureString,
    source: CredentialSource,
    last_rotated: Option<u64>,
    rotation_interval: Option<u64>,
}

/// The credentials are due for rotation at `now`: a rotation time and an
/// interval are known, and at least the interval has passed (a clock that
/// went backwards counts as not due).
pub open spec fn rotation_due(last_rotated: Option<u64>, interval: Option<u64>, now: u64) -> bool {
    match (last_rotated, interval) {
        (Some(l), Some(i)) => now >= l && now - l >= i,
        _ => false,
    }
}

/// What rotating credentials of a source does.
#[derive(Debug, Clone, Copy, PartialEq, Eq, Structural)]
pub enum RotationStep {
    /// Direct credentials cannot be rotated; nothing changes.
    Keep,
    /// Reload from the environment variables named by `rotation_env_vars`.
    ReloadFromEnvironment,
    /// The file is updated elsewhere; only the rotation time is set.
    MarkRotated,
    /// Vault support is not part of this build.
    Unsupported,
}

/// The environment variables read when environment credentials are rotated.
pub open spec fn rotation_env_var_names(secs: nat) -> (Seq<char>, Seq<char>) {
    ("DB_USERNAME_"@ + dec(secs), "DB_PASSWORD_"@ + dec(secs))
}

impl DatabaseCredentials {
    /// The user name.
    pub closed spec fn username_view(&self) -> Seq<char> {
        self.username@
    }

    /// The password.
    pub closed spec fn password_view(&self) -> Seq<char> {
        self.password@
    }

    /// Where the credentials came from.
    pub closed spec fn source_kind(&self) -> CredentialSource {
        self.source
    }

    /// When the credentials were last rotated.
    pub closed spec fn last_rotated_ms(&self) -> Option<u64> {
        self.last_rotated
    }

    /// How often the credentials are to be rotated.
    pub closed spec fn rotation_interval_ms(&self) -> Option<u64> {
        self.rotation_interval
    }

    /// Credentials from a source, with no rotation interval.
    pub fn from_source(username: &str, password: &str, source: CredentialSource, last_rotated: Option<u64>) -> (c: Self)
        ensures
            c.username_view() == username@,
            c.password_view() == password@,
            c.source_kind() == source,
            c.last_rotated_ms() == last_rotated,
            c.rotation_interval_ms() is None,
    {
        DatabaseCredentials {
            username: SecureString::new(username),
            password: SecureString::new(password),
            source,
            last_rotated,
            rotation_interval: None,
        }
    }

    /// Directly given credentials, rotated now.
    pub fn new_direct(username: &str, password: &str) -> (c: Self)
        ensures
            c.username_view() == username@,
            c.password_view() == password@,
            c.source_kind() == CredentialSource::Direct,
            c.last_rotated_ms() is Some,
            c.rotation_interval_ms() is None,
    {
        let now = current_time_millis();
        Self::from_source(username, password, CredentialSource::Direct, Some(now))
    }

    /// The same credentials, to be rotated every `interval_ms`.
    pub fn with_rotation_interval(self, interval_ms: u64) -> (c: Self)
        ensures
            c.username_view() == self.username_view(),
            c.password_view() == self.password_view(),
            c.source_kind() == self.source_kind(),
            c.last_rotated_ms() == self.last_rotated_ms(),
            c.rotation_interval_ms() == Some(interval_ms),
    {
        let mut c = self;
        c.rotation_interval = Some(interval_ms);
        c
    }

    /// Whether the credentials are due for rotation at `now_ms`.
    pub fn needs_rotation_at(&self, now_ms: u64) -> (b: bool)
        ensures
            b == rotation_due(self.last_rotated_ms(), self.rotation_interval_ms(), now_ms),
    {
        match (self.last_rotated, self.rotation_interval) {
            (Some(last), Some(interval)) => now_ms >= last && now_ms - last >= interval,
            _ => false,
        }
    }

    /// Whether the credentials are due for rotation now: whether they are
    /// due at the time read from the system clock, whatever that reading is.
    pub fn needs_rotation(&self) -> (b: bool)
        ensures
            exists|now_ms: u64| #[trigger] rotation_due(self.last_rotated_ms(), self.rotation_interval_ms(), now_ms) == b,
            b ==> self.last_rotated_ms() is Some && self.rotation_interval_ms() is Some,
    {
        let now = current_time_millis();
        let b = self.needs_rotation_at(now);
        assert(rotation_due(self.last_rotated_ms(), self.rotation_interval_ms(), now) == b);
        b
    }

    /// What rotating these credentials does.
    pub fn rotation_step(&self) -> (s: RotationStep)
        ensures
            s == match self.source_kind() {
                CredentialSource::Direct => RotationStep::Keep,
                CredentialSource::Environment => RotationStep::ReloadFromEnvironment,
                CredentialSource::File => RotationStep::MarkRotated,
                CredentialSource::Vault => RotationStep::Unsupported,
            },
    {
        match self.source {
            CredentialSource::Direct => RotationStep::Keep,
            CredentialSource::Environment => RotationStep::ReloadFromEnvironment,
            CredentialSource::File => RotationStep::MarkRotated,
            CredentialSource::Vault => RotationStep::Unsupported,
        }
    }

    /// Rotates the credentials at `now_ms`. For environment credentials,
    /// `reloaded` is the user name and password read from the variables of
    /// `rotation_env_vars`, if both were set.
    pub fn rotate_with(&mut self, reloaded: Option<(String, String)>, now_ms: u64) -> (r: Result<(), AppError>)
        ensures
            final(self).source_kind() == old(self).source_kind(),
            final(self).rotation_interval_ms() == old(self).rotation_interval_ms(),
            match old(self).source_kind() {
                CredentialSource::Direct => r is Ok && *final(self) == *old(self),
                CredentialSource::Environment => match reloaded {
                    Some((u, p)) => r is Ok && final(self).username_view() == u@ && final(self).password_view() == p@
                        && final(self).last_rotated_ms() == Some(now_ms),
                    None => r == Err::<(), AppError>(AppError::InvalidInput(r->Err_0->InvalidInput_0))
                        && r->Err_0->InvalidInput_0@ == "Failed to rotate credentials from environment"@
                        && *final(self) == *old(self),
                },
                CredentialSource::File => r is Ok && final(self).last_rotated_ms() == Some(now_ms)
                    && final(self).username_view() == old(self).username_view()
                    && final(self).password_view() == old(self).password_view(),
                CredentialSource::Vault => r == Err::<(), AppError>(AppError::InvalidInput(r->Err_0->InvalidInput_0))
                    && r->Err_0->InvalidInput_0@ == "Vault support is not compiled in this build"@
                    && *final(self) == *old(self),
            },
    {
        match self.source {
            CredentialSource::Direct => Ok(()),
            CredentialSource::Environment => match reloaded {
                Some((u, p)) => {
                    self.username = SecureString::from_string(u);
                    self.password = SecureString::from_string(p);
                    self.last_rotated = Some(now_ms);
                    Ok(())
                },
                None => Err(AppError::InvalidInput(owned("Failed to rotate credentials from environment"))),
            },
            CredentialSource::File => {
                self.last_rotated = Some(now_ms);
                Ok(())
            },
            CredentialSource::Vault => Err(AppError::InvalidInput(owned("Vault support is not compiled in this build"))),
        }
    }

    /// The user name.
    pub fn username(&self) -> (s: &str)
        ensures
            s@ == self.username_view(),
    {
        self.username.as_str()
    }

    /// The password.
    pub fn password(&self) -> (s: &str)
        ensures
            s@ == self.password_view(),
    {
        self.password.as_str()
    }

    /// Where the credentials came from.
    pub fn source(&self) -> (s: CredentialSource)
        ensures
            s == self.source_kind(),
    {
        self.source
    }

    /// The debug form: both secrets redacted, the source, and the rotation
    /// time and interval in milliseconds.
    pub fn debug_string(&self) -> (s: String)
        ensures
            s@ == credentials_debug(self.source_kind(), self.last_rotated_ms(), self.rotation_interval_ms()),
    {
        let mut s = owned("DatabaseCredentials { username: ");
        s.append(self.username.debug_string().as_str());
        s.append(", password: ");
        s.append(self.password.debug_string().as_str());
        s.append(", source: ");
        s.append(source_name_str(self.source));
        s.append(", last_rotated: ");
        s.append(opt_millis_string(self.last_rotated).as_str());
        s.append(", rotation_interval: ");
        s.append(opt_millis_string(self.rotation_interval).as_str());
        s.append(" }");
        s
    }
}

/// The name of a credential source.
pub open spec fn source_name(src: CredentialSource) -> Seq<char> {
    match src {
        CredentialSource::Direct => "Direct"@,
        CredentialSource::Environment => "Environment"@,
        CredentialSource::File => "File"@,
        CredentialSource::Vault => "Vault"@,
    }
}

fn source_name_str(src: CredentialSource) -> (s: &'static str)
    ensures
        s@ == source_name(src),
{
    match src {
        CredentialSource::Direct => "Direct",
        CredentialSource::Environment => "Environment",
        CredentialSource::File => "File",
        CredentialSource::Vault => "Vault",
    }
}

/// An optional number of milliseconds: `Some(<n>ms)` or `None`.
pub open spec fn opt_millis(v: Option<u64>) -> Seq<char> {
    match v {
        Some(n) => "Some("@ + dec(n as nat) + "ms)"@,
        None => "None"@,
    }
}

fn opt_millis_string(v: Option<u64>) -> (s: String)
    ensures
        s@ == opt_millis(v),
{
    match v {
        Some(n) => {
            let mut s = owned("Some(");
            s.append(u64_to_string(n).as_str());
            s.append("ms)");
            s
        },
        None => owned("None"),
    }
}

/// The debug form of credentials; the user name and password never appear.
pub open spec fn credentials_debug(src: CredentialSource, last_rotated: Option<u64>, interval: Option<u64>) -> Seq<char> {
    "DatabaseCredentials { username: "@ + "[REDACTED]"@ + ", password: "@ + "[REDACTED]"@ + ", source: "@ + source_name(src)
        + ", last_rotated: "@ + opt_millis(last_rotated) + ", rotation_interval: "@ + opt_millis(interval) + " }"@
}

/// The environment variable names read when environment credentials are
/// rotated, for a clock reading of `secs` seconds.
pub fn rotation_env_vars(secs: u64) -> (r: (String, String))
    ensures
        r.0@ == rotation_env_var_names(secs as nat).0,
        r.1@ == rotation_env_var_names(secs as nat).1,
{
    let n = u64_to_string(secs);
    let mut u = owned("DB_USERNAME_");
    u.append(n.as_str());
    let mut p = owned("DB_PASSWORD_");
    p.append(n.as_str());
    (u, p)
}

/// Connection settings with protected credentials.
#[derive(Clone)]
pub struct SecureDatabaseConfig {
    pub endpoint: String,
    pub credentials: DatabaseCredentials,
    pub namespace: String,
    pub database: String,
    pub use_tls: bool,
}

/// The endpoint used for a connection: with TLS wanted and no secure
/// scheme, `http://` becomes `https://`, `ws://` becomes `wss://`, and an
/// endpoint without a scheme gets `https://` in front.
pub open spec fn tls_endpoint(endpoint: Seq<char>, use_tls: bool) -> Seq<char> {
    if use_tls && !has_prefix(endpoint, "https://"@) && !has_prefix(endpoint, "wss://"@) {
        if has_prefix(endpoint, "http://"@) {
            replace_all(endpoint, "http://"@, "https://"@)
        } else if has_prefix(endpoint, "ws://"@) {
            replace_all(endpoint, "ws://"@, "wss://"@)
        } else {
            "https://"@ + endpoint
        }
    } else {
        endpoint
    }
}

impl SecureDatabaseConfig {
    /// Settings from their parts, TLS on.
    pub fn new(endpoint: &str, credentials: DatabaseCredentials, namespace: &str, database: &str) -> (c: Self)
        ensures
            c.endpoint@ == endpoint@,
            c.credentials == credentials,
            c.namespace@ == namespace@,
            c.database@ == database@,
            c.use_tls,
    {
        SecureDatabaseConfig {
            endpoint: owned(endpoint),
            credentials,
            namespace: owned(namespace),
            database: owned(database),
            use_tls: true,
        }
    }

    /// The same settings with TLS on or off.
    pub fn with_tls(self, use_tls: bool) -> (c: Self)
        ensures
            c.endpoint == self.endpoint,
            c.credentials == self.credentials,
            c.namespace == self.namespace,
            c.database == self.database,
            c.use_tls == use_tls,
    {
        let mut c = self;
        c.use_tls = use_tls;
        c
    }

    /// The plain settings for the driver.
    pub fn to_database_config(&self) -> (c: DatabaseConfig)
        ensures
            c.endpoint@ == tls_endpoint(self.endpoint@, self.use_tls),
            c.username@ == self.credentials.username_view(),
            c.password@ == self.credentials.password_view(),
            c.namespace@ == self.namespace@,
            c.database@ == self.database@,
    {
        let e = self.endpoint.as_str();
        proof {
            reveal_strlit("http://");
            reveal_strlit("ws://");
        }
        let endpoint = if self.use_tls && !starts_with(e, "https://") && !starts_with(e, "wss://") {
            if starts_with(e, "http://") {
                replace_str(e, "http://", "https://")
            } else if starts_with(e, "ws://") {
                replace_str(e, "ws://", "wss://")
            } else {
                let mut s = owned("https://");
                s.append(e);
                s
            }
        } else {
            owned(e)
        };
        DatabaseConfig::new(
            endpoint,
            owned(self.credentials.username()),
            owned(self.credentials.password()),
            self.namespace.clone(),
            self.database.clone(),
        )
    }
}

/// The value of a TLS flag setting: anything but `false` (in any letter
/// case) and `0` turns TLS on; an absent setting does too.
pub open spec fn tls_flag_value(v: Option<Seq<char>>) -> bool {
    match v {
        None => true,
        Some(s) => !ascii_ieq(s, "false"@) && s != "0"@,
    }
}

/// Reads a TLS flag setting.
pub fn tls_flag(v: Option<&str>) -> (b: bool)
    ensures
        b == tls_flag_value(match v { Some(s) => Some(s@), None => None }),
{
    match v {
        None => true,
        Some(s) => {
            let same = eq_ignore_ascii_case(s, "false");
            !same && !str_eq(s, "0")
        },
    }
}

/// What the connection manager does next.
#[derive(Debug, Clone, Copy, PartialEq, Eq, Structural)]
pub enum ConnectionStep {
    /// Hand out the open connection.
    Reuse,
    /// Rotate the credentials and reconnect, then connect afresh.
    Rotate,
    /// Open a new connection.
    Connect,
}

/// Keeps one connection and rotates credentials when they are due.
pub struct ConnectionManager {
    config: SecureDatabaseConfig,
    connected: bool,
    last_check: u64,
    check_interval: u64,
}

/// The manager's next step at `now`: with a connection and a check not yet
/// due, reuse it; with a check due and credentials due, rotate; otherwise connect.
pub open spec fn connection_step_at(connected: bool, last_check: u64, check_interval: u64, rotation_due_now: bool, now: u64) -> ConnectionStep {
    let check_due = now >= last_check && now - last_check >= check_interval;
    if connected && check_due && rotation_due_now {
        ConnectionStep::Rotate
    } else if connected && !check_due {
        ConnectionStep::Reuse
    } else {
        ConnectionStep::Connect
    }
}

impl ConnectionManager {
    /// The managed settings.
    pub closed spec fn config_view(&self) -> SecureDatabaseConfig {
        self.config
    }

    /// A connection is open.
    pub closed spec fn is_connected(&self) -> bool {
        self.connected
    }

    /// When the connection was last checked.
    pub closed spec fn last_check_ms(&self) -> u64 {
        self.last_check
    }

    /// How often the connection is checked.
    pub closed spec fn check_interval_ms(&self) -> u64 {
        self.check_interval
    }

    /// A manager with no connection, checked every five minutes from `now_ms`.
    pub fn new_at(config: SecureDatabaseConfig, now_ms: u64) -> (m: Self)
        ensures
            m.config_view() == config,
            !m.is_connected(),
            m.last_check_ms() == now_ms,
            m.check_interval_ms() == 300_000,
    {
        ConnectionManager { config, connected: false, last_check: now_ms, check_interval: 300_000 }
    }

    /// A manager with no connection, checked every five minutes from now.
    pub fn new(config: SecureDatabaseConfig) -> (m: Self)
        ensures
            m.config_view() == config,
            !m.is_connected(),
            m.check_interval_ms() == 300_000,
    {
        let now = current_time_millis();
        Self::new_at(config, now)
    }

    /// The same manager, checked every `interval_ms`.
    pub fn with_check_interval(self, interval_ms: u64) -> (m: Self)
        ensures
            m.config_view() == self.config_view(),
            m.is_connected() == self.is_connected(),
            m.last_check_ms() == self.last_check_ms(),
            m.check_interval_ms() == interval_ms,
    {
        let mut m = self;
        m.check_interval = interval_ms;
        m
    }

    /// The next step at `now_ms`.
    pub fn next_step(&self, now_ms: u64) -> (s: ConnectionStep)
        ensures
            s == connection_step_at(self.is_connected(), self.last_check_ms(), self.check_interval_ms(),
                rotation_due(self.config_view().credentials.last_rotated_ms(),
                    self.config_view().credentials.rotation_interval_ms(), now_ms), now_ms),
    {
        let check_due = now_ms >= self.last_check && now_ms - self.last_check >= self.check_interval;
        if self.connected && check_due && self.config.credentials.needs_rotation_at(now_ms) {
            ConnectionStep::Rotate
        } else if self.connected && !check_due {
            ConnectionStep::Reuse
        } else {
            ConnectionStep::Connect
        }
    }

    /// The settings to connect with.
    pub fn database_config(&self) -> (c: DatabaseConfig)
        ensures
            c.endpoint@ == tls_endpoint(self.config_view().endpoint@, self.config_view().use_tls),
            c.username@ == self.config_view().credentials.username_view(),
            c.password@ == self.config_view().credentials.password_view(),
    {
        self.config.to_database_config()
    }

    /// Rotates the managed credentials at `now_ms` (see `rotate_with`).
    pub fn rotate_credentials_with(&mut self, reloaded: Option<(String, String)>, now_ms: u64) -> (r: Result<(), AppError>)
        ensures
            final(self).is_connected() == old(self).is_connected(),
            final(self).last_check_ms() == old(self).last_check_ms(),
            final(self).check_interval_ms() == old(self).check_interval_ms(),
            final(self).config_view().endpoint == old(self).config_view().endpoint,
            final(self).config_view().use_tls == old(self).config_view().use_tls,
            final(self).config_view().credentials.source_kind() == old(self).config_view().credentials.source_kind(),
            r is Ok <==> match old(self).config_view().credentials.source_kind() {
                CredentialSource::Environment => reloaded is Some,
                CredentialSource::Vault => false,
                _ => true,
            },
    {
        self.config.credentials.rotate_with(reloaded, now_ms)
    }

    /// Records that a connection was opened at `now_ms`.
    pub fn record_connected(&mut self, now_ms: u64)
        ensures
            final(self).is_connected(),
            final(self).last_check_ms() == now_ms,
            final(self).check_interval_ms() == old(self).check_interval_ms(),
            final(self).config_view() == old(self).config_view(),
    {
        self.connected = true;
        self.last_check = now_ms;
    }
}

/// Law: a connection is reused exactly while its check is not yet due, and
/// credentials are rotated only when both the check and the rotation are due.
pub proof fn law_connection_step(connected: bool, last_check: u64, check_interval: u64, rotation_due_now: bool, now: u64)
    ensures
        connection_step_at(connected, last_check, check_interval, rotation_due_now, now) == ConnectionStep::Reuse
            <==> connected && !(now >= last_check && now - last_check >= check_interval),
        connection_step_at(connected, last_check, check_interval, rotation_due_now, now) == ConnectionStep::Rotate
            ==> rotation_due_now,
        !connected ==> connection_step_at(connected, last_check, check_interval, rotation_due_now, now) == ConnectionStep::Connect,
{
}

/// Law: with TLS wanted, the endpoint handed to the driver always has a
/// secure scheme (`https://` or `wss://`); without TLS it is used as given.
pub proof fn law_tls_endpoint_is_secure(endpoint: Seq<char>)
    ensures
        has_prefix(tls_endpoint(endpoint, true), "https://"@) || has_prefix(tls_endpoint(endpoint, true), "wss://"@),
        tls_endpoint(endpoint, false) == endpoint,
{
    reveal_strlit("http://");
    reveal_strlit("https://");
    reveal_strlit("ws://");
    reveal_strlit("wss://");
    let e = endpoint;
    if !has_prefix(e, "https://"@) && !has_prefix(e, "wss://"@) {
        if has_prefix(e, "http://"@) {
            assert(e.take(7) =~= e.subrange(0, 7));
            let r = replace_all(e, "http://"@, "https://"@);
            assert(r == "https://"@ + replace_all(e.skip(7), "http://"@, "https://"@));
            assert(r.subrange(0, 8) =~= "https://"@);
        } else if has_prefix(e, "ws://"@) {
            assert(e.take(5) =~= e.subrange(0, 5));
            let r = replace_all(e, "ws://"@, "wss://"@);
            assert(r == "wss://"@ + replace_all(e.skip(5), "ws://"@, "wss://"@));
            assert(r.subrange(0, 6) =~= "wss://"@);
        } else {
            let r = "https://"@ + e;
            assert(r.subrange(0, 8) =~= "https://"@);
        }
    }
}

} // verus!
