use stablemint::conn::DatabaseConfig;
use stablemint::credentials::{
    rotation_env_vars, tls_flag, ConnectionManager, ConnectionStep, CredentialSource, DatabaseCredentials,
    RotationStep, SecureDatabaseConfig, SecureString,
};
use stablemint::db_error::AppError;

#[test]
fn test_direct_credentials() {
    let creds = DatabaseCredentials::new_direct("test_user", "test_pass");
    assert_eq!(creds.username(), "test_user");
    assert_eq!(creds.password(), "test_pass");
}

#[test]
fn test_secure_database_config() {
    let creds = DatabaseCredentials::new_direct("config_user", "config_pass");
    let config = SecureDatabaseConfig::new("localhost:8000", creds, "test", "test");

    let db_config = config.to_database_config();
    assert_eq!(db_config.endpoint, "https://localhost:8000");
    assert_eq!(db_config.username, "config_user");
    assert_eq!(db_config.password, "config_pass");

    let config = config.with_tls(false);
    let db_config = config.to_database_config();
    assert_eq!(db_config.endpoint, "localhost:8000");
}

#[test]
fn tls_rewrites_plain_schemes() {
    let creds = DatabaseCredentials::new_direct("u", "p");
    let http = SecureDatabaseConfig::new("http://db.local/http://x", creds.clone(), "n", "d");
    assert_eq!(http.to_database_config().endpoint, "https://db.local/https://x");
    let ws = SecureDatabaseConfig::new("ws://db.local:8000", creds.clone(), "n", "d");
    assert_eq!(ws.to_database_config().endpoint, "wss://db.local:8000");
    let wss = SecureDatabaseConfig::new("wss://db.local:8000", creds.clone(), "n", "d");
    assert_eq!(wss.to_database_config().endpoint, "wss://db.local:8000");
    let https = SecureDatabaseConfig::new("https://db.local", creds, "n", "d");
    assert_eq!(https.to_database_config().endpoint, "https://db.local");
}

#[test]
fn rotation_is_due_after_interval() {
    let creds = DatabaseCredentials::from_source("u", "p", CredentialSource::File, Some(1_000))
        .with_rotation_interval(1_000);
    assert!(!creds.needs_rotation_at(1_999));
    assert!(creds.needs_rotation_at(2_000));
    assert!(!creds.needs_rotation_at(500));
    let never = DatabaseCredentials::from_source("u", "p", CredentialSource::File, Some(1_000));
    assert!(!never.needs_rotation_at(u64::MAX));
}

#[test]
fn fresh_direct_credentials_do_not_need_rotation() {
    let creds = DatabaseCredentials::new_direct("rotate_user", "rotate_pass").with_rotation_interval(60_000);
    assert!(!creds.needs_rotation());
}

#[test]
fn rotation_by_source() {
    let mut direct = DatabaseCredentials::from_source("u", "p", CredentialSource::Direct, Some(1));
    assert_eq!(direct.rotation_step(), RotationStep::Keep);
    assert!(direct.rotate_with(None, 50).is_ok());
    assert_eq!(direct.username(), "u");

    let mut env = DatabaseCredentials::from_source("u", "p", CredentialSource::Environment, None);
    assert_eq!(env.rotation_step(), RotationStep::ReloadFromEnvironment);
    match env.rotate_with(None, 50) {
        Err(AppError::InvalidInput(m)) => assert_eq!(m, "Failed to rotate credentials from environment"),
        other => panic!("unexpected {:?}", other.is_ok()),
    }
    assert!(env.rotate_with(Some(("u2".to_string(), "p2".to_string())), 60).is_ok());
    assert_eq!(env.username(), "u2");
    assert_eq!(env.password(), "p2");

    let mut vault = DatabaseCredentials::from_source("u", "p", CredentialSource::Vault, None);
    match vault.rotate_with(None, 1) {
        Err(AppError::InvalidInput(m)) => assert_eq!(m, "Vault support is not compiled in this build"),
        _ => panic!("expected an error"),
    }
}

#[test]
fn rotation_variable_names() {
    let (u, p) = rotation_env_vars(0);
    assert_eq!(u, "DB_USERNAME_0");
    assert_eq!(p, "DB_PASSWORD_0");
}

#[test]
fn tls_flag_values() {
    assert!(tls_flag(None));
    assert!(!tls_flag(Some("false")));
    assert!(!tls_flag(Some("FaLsE")));
    assert!(!tls_flag(Some("0")));
    assert!(tls_flag(Some("true")));
    assert!(tls_flag(Some("no")));
}

#[test]
fn secure_string_redacts() {
    let s = SecureString::new("hunter2");
    assert_eq!(s.as_str(), "hunter2");
    assert_eq!(s.debug_string(), "[REDACTED]");
}

#[test]
fn conversion_to_secure_config() {
    let c = DatabaseConfig::new(
        "ws://host".to_string(),
        "user".to_string(),
        "pass".to_string(),
        "ns".to_string(),
        "db".to_string(),
    );
    let s = c.to_secure_config();
    assert!(s.use_tls);
    assert_eq!(s.credentials.username(), "user");
    assert_eq!(s.to_database_config().endpoint, "wss://host");
}

#[test]
fn connection_manager_steps() {
    let creds = DatabaseCredentials::from_source("u", "p", CredentialSource::File, Some(0)).with_rotation_interval(1_000);
    let config = SecureDatabaseConfig::new("memory", creds, "test", "test").with_tls(false);
    let mut manager = ConnectionManager::new_at(config, 0).with_check_interval(100);
    assert_eq!(manager.next_step(10), ConnectionStep::Connect);
    manager.record_connected(10);
    assert_eq!(manager.next_step(50), ConnectionStep::Reuse);
    assert_eq!(manager.next_step(200), ConnectionStep::Connect);
    assert_eq!(manager.next_step(2_000), ConnectionStep::Rotate);
    assert!(manager.rotate_credentials_with(None, 2_000).is_ok());
    assert_eq!(manager.database_config().endpoint, "memory");
}

#[test]
fn test_rotation_detection() {
    // A one-second rotation interval; times in milliseconds.
    let creds = DatabaseCredentials::new_direct("rotate_user", "rotate_pass").with_rotation_interval(1_000);
    assert!(!creds.needs_rotation());
    let now_ms = std::time::SystemTime::now()
        .duration_since(std::time::UNIX_EPOCH)
        .map(|d| d.as_millis() as u64)
        .unwrap_or(0);
    // Two seconds later the credentials are due.
    assert!(creds.needs_rotation_at(now_ms + 2_000));
}

#[test]
fn memory_endpoint_needs_no_sign_in() {
    let mem = DatabaseConfig::new("memory".into(), "u".into(), "p".into(), "ns".into(), "db".into());
    assert!(!mem.needs_sign_in());
    let remote = DatabaseConfig::new("ws://localhost:8000".into(), "u".into(), "p".into(), "ns".into(), "db".into());
    assert!(remote.needs_sign_in());
}

#[test]
fn credentials_debug_form_hides_secrets() {
    let creds = DatabaseCredentials::from_source("admin", "hunter2", CredentialSource::File, Some(42)).with_rotation_interval(1_000);
    let d = creds.debug_string();
    assert_eq!(
        d,
        "DatabaseCredentials { username: [REDACTED], password: [REDACTED], source: File, last_rotated: Some(42ms), rotation_interval: Some(1000ms) }"
    );
    assert!(!d.contains("hunter2") && !d.contains("admin"));
}
