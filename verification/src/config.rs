//! The compact configuration types used by the services (database, server,
//! token signing), their checks, and how they are read off the complete
//! application configuration.
use vstd::prelude::*;
use crate::config_loader::{AppConfig, problem_if};
use crate::error::AppError;
use crate::text::{blank, has_prefix, has_infix, join, views, is_blank, starts_with, contains, str_eq, owned, join_strings};

verus! {

/// One database connection.
#[derive(Debug, Clone)]
pub struct DatabaseConfig {
    pub endpoint: String,
    pub username: String,
    pub password: String,
    pub namespace: String,
    pub database: String,
}

/// Problems with a database configuration for production, in the order they are reported.
pub open spec fn database_config_errors(c: DatabaseConfig) -> Seq<Seq<char>> {
    (if blank(c.endpoint@) {
        seq!["Database endpoint cannot be empty"@]
    } else {
        problem_if(!has_prefix(c.endpoint@, "wss://"@) && !has_infix(c.endpoint@, "memory"@),
            "Production should use a secure 'wss://' connection"@)
    })
    + problem_if(blank(c.namespace@), "Database namespace cannot be empty"@)
    + problem_if(blank(c.database@), "Database name cannot be empty"@)
    + problem_if(c.username@ == "root"@, "Using default 'root' username in production is insecure"@)
    + problem_if(c.password@ == "root"@, "Using default 'root' password in production is insecure"@)
}

fn push_if(errors: &mut Vec<String>, cond: bool, msg: &str)
    ensures
        views(final(errors)@) == views(old(errors)@) + problem_if(cond, msg@),
{
    let ghost before = views(errors@);
    if cond {
        errors.push(owned(msg));
    }
    assert(views(errors@) =~= before + problem_if(cond, msg@));
}

impl DatabaseConfig {
    /// A configuration from its parts.
    pub fn new(endpoint: String, username: String, password: String, namespace: String, database: String) -> (c: Self)
        ensures
            c.endpoint == endpoint,
            c.username == username,
            c.password == password,
            c.namespace == namespace,
            c.database == database,
    {
        DatabaseConfig { endpoint, username, password, namespace, database }
    }

    /// Checks the configuration for production use; every problem is listed.
    pub fn validate(&self) -> (r: Result<(), AppError>)
        ensures
            r is Ok <==> database_config_errors(*self).len() == 0,
            r matches Err(e) ==> e is ConfigError
                && e->ConfigError_0@ == "Invalid database configuration: "@ + join(database_config_errors(*self), ", "@),
    {
        let mut errors: Vec<String> = Vec::new();
        let ghost before = views(errors@);
        if is_blank(self.endpoint.as_str()) {
            push_if(&mut errors, true, "Database endpoint cannot be empty");
        } else {
            let insecure = !starts_with(self.endpoint.as_str(), "wss://") && !contains(self.endpoint.as_str(), "memory");
            push_if(&mut errors, insecure, "Production should use a secure 'wss://' connection");
        }
        push_if(&mut errors, is_blank(self.namespace.as_str()), "Database namespace cannot be empty");
        push_if(&mut errors, is_blank(self.database.as_str()), "Database name cannot be empty");
        push_if(&mut errors, str_eq(self.username.as_str(), "root"), "Using default 'root' username in production is insecure");
        push_if(&mut errors, str_eq(self.password.as_str(), "root"), "Using default 'root' password in production is insecure");
        assert(views(errors@) =~= database_config_errors(*self));
        if errors.len() > 0 {
            let mut msg = owned("Invalid database configuration: ");
            let joined = join_strings(&errors, ", ");
            msg.append(joined.as_str());
            return Err(AppError::ConfigError(msg));
        }
        Ok(())
    }

    /// The user database settings of the complete configuration.
    pub fn from_app_config(config: &AppConfig) -> (c: Self)
        ensures
            c.endpoint == config.database.user_db.endpoint,
            c.username == config.database.user_db.username,
            c.password == config.database.user_db.password,
            c.namespace == config.database.user_db.namespace,
            c.database == config.database.user_db.database,
    {
        DatabaseConfig {
            endpoint: config.database.user_db.endpoint.clone(),
            username: config.database.user_db.username.clone(),
            password: config.database.user_db.password.clone(),
            namespace: config.database.user_db.namespace.clone(),
            database: config.database.user_db.database.clone(),
        }
    }
}

/// The HTTP server's address and port.
#[derive(Debug, Clone)]
pub struct Server {
    pub port: u16,
    pub address: String,
}

impl Server {
    /// A server setting from its parts.
    pub fn new(address: String, port: u16) -> (s: Self)
        ensures
            s.address == address,
            s.port == port,
    {
        Server { port, address }
    }

    /// Checks the port and then the address.
    pub fn validate(&self) -> (r: Result<(), AppError>)
        ensures
            self.port == 0 ==> (r matches Err(e) && e is ConfigError
                && e->ConfigError_0@ == "Invalid server port: '0' is not a valid port number"@),
            self.port != 0 && blank(self.address@) ==> (r matches Err(e) && e is ConfigError
                && e->ConfigError_0@ == "Server address cannot be empty"@),
            r is Ok <==> self.port != 0 && !blank(self.address@),
    {
        if self.port == 0 {
            return Err(AppError::ConfigError(owned("Invalid server port: '0' is not a valid port number")));
        }
        if is_blank(self.address.as_str()) {
            return Err(AppError::ConfigError(owned("Server address cannot be empty")));
        }
        Ok(())
    }

    /// The server settings of the complete configuration.
    pub fn from_app_config(config: &AppConfig) -> (s: Self)
        ensures
            s.port == config.server.port,
            s.address == config.server.host,
    {
        Server { port: config.server.port, address: config.server.host.clone() }
    }
}

/// Token signing key and lifetime.
#[derive(Debug, Clone)]
pub struct JwtConfig {
    pub secret: Vec<u8>,
    pub expiry_hours: u64,
}

impl JwtConfig {
    /// A signing setting from the key's bytes and the lifetime in hours.
    pub fn new(secret: &[u8], expiry_hours: u64) -> (c: Self)
        ensures
            c.secret@ == secret@,
            c.expiry_hours == expiry_hours,
    {
        let mut v: Vec<u8> = Vec::new();
        let mut i: usize = 0;
        while i < secret.len()
            invariant
                i <= secret@.len(),
                v@ == secret@.subrange(0, i as int),
            decreases secret.len() - i,
        {
            v.push(secret[i]);
            i = i + 1;
        }
        JwtConfig { secret: v, expiry_hours }
    }

    /// The signing settings of the complete configuration: the secret's UTF-8 bytes.
    pub fn from_app_config(config: &AppConfig) -> (c: Self)
        ensures
            c.secret@ == vstd::utf8::encode_utf8(config.security.jwt.secret@),
            c.expiry_hours == config.security.jwt.expiry_hours,
    {
        Self::new(config.security.jwt.secret.as_str().as_bytes(), config.security.jwt.expiry_hours)
    }
}

} // verus!
