//! The plain database connection settings handed to the driver, and their
//! conversion to the settings with protected credentials.
use vstd::prelude::*;
use crate::credentials::{DatabaseCredentials, SecureDatabaseConfig};

verus! {

/// Endpoint, credentials, namespace and database of one connection.
#[derive(Clone)]
pub struct DatabaseConfig {
    pub endpoint: String,
    pub username: String,
    pub password: String,
    pub namespace: String,
    pub database: String,
}

impl DatabaseConfig {
    /// Settings from their parts.
    pub fn new(endpoint: String, username: String, password: String, namespace: String, database: String) -> (c: Self)
        ensures
            c.endpoint == endpoint,
            c.username == username,
            c.password == password,
            c.namespace == namespace,
            c.database == database,
    {
        DatabaseConfig { endpoint, username, password, namespace, database }
    }

    /// Whether connecting signs in with the credentials: every endpoint but
    /// the in-memory one (`memory`) needs it.
    pub fn needs_sign_in(&self) -> (b: bool)
        ensures
            b == (self.endpoint@ != "memory"@),
    {
        !crate::text::str_eq(self.endpoint.as_str(), "memory")
    }

    /// The same settings with directly given credentials, TLS on.
    pub fn to_secure_config(self) -> (c: SecureDatabaseConfig)
        ensures
            c.endpoint@ == self.endpoint@,
            c.namespace@ == self.namespace@,
            c.database@ == self.database@,
            c.use_tls,
            c.credentials.username_view() == self.username@,
            c.credentials.password_view() == self.password@,
            c.credentials.source_kind() == crate::credentials::CredentialSource::Direct,
            c.credentials.rotation_interval_ms() is None,
            c.credentials.last_rotated_ms() is Some,
    {
        let credentials = DatabaseCredentials::new_direct(self.username.as_str(), self.password.as_str());
        SecureDatabaseConfig::new(self.endpoint.as_str(), credentials, self.namespace.as_str(), self.database.as_str())
    }
}

} // verus!
