use stablemint::config::{DatabaseConfig, JwtConfig, Server};
use stablemint::config_loader::{AppConfig, HcpSecretsConfig};
use stablemint::error::AppError;

fn db(endpoint: &str, user: &str, pass: &str, ns: &str, name: &str) -> DatabaseConfig {
    DatabaseConfig::new(endpoint.to_string(), user.to_string(), pass.to_string(), ns.to_string(), name.to_string())
}

#[test]
fn default_config_lacks_hcp_project() {
    let c = AppConfig::default();
    assert_eq!(c.environment, "development");
    assert_eq!(c.server.port, 3000);
    assert_eq!(c.security.password.min_length, 8);
    match c.validate() {
        Err(AppError::ConfigError(m)) => assert_eq!(
            m,
            "Invalid configuration: HCP organization ID cannot be empty, HCP project ID cannot be empty"
        ),
        _ => panic!("expected an error"),
    }
}

#[test]
fn completed_default_config_validates() {
    let mut c = AppConfig::default();
    if let Some(h) = c.hcp_secrets.as_mut() {
        h.org_id = "org".to_string();
        h.project_id = "proj".to_string();
    }
    assert!(c.validate().is_ok());
}

#[test]
fn production_rules() {
    let mut c = AppConfig::default();
    c.environment = "production".to_string();
    c.hcp_secrets = None;
    match c.validate() {
        Err(AppError::ConfigError(m)) => assert_eq!(
            m,
            "Invalid configuration: user_db should use a secure 'wss://' database connection in production, \
Using default 'root' username in user_db in production is insecure, \
Using default 'root' password in user_db in production is insecure, \
wallet_db should use a secure 'wss://' database connection in production, \
Using default 'root' username in wallet_db in production is insecure, \
Using default 'root' password in wallet_db in production is insecure, \
Sentry DSN should be configured in production, \
Production should use a secure 'rediss://' Redis connection, \
HCP Secrets configuration is required for production"
        ),
        _ => panic!("expected an error"),
    }
    c.security.jwt.secret = "short".to_string();
    match c.validate() {
        Err(AppError::ConfigError(m)) => assert!(m.contains("JWT secret is not secure for production use")),
        _ => panic!("expected an error"),
    }
    c.hcp_secrets = Some(HcpSecretsConfig {
        base_url: "http://hcp".to_string(),
        org_id: "o".to_string(),
        project_id: "p".to_string(),
        app_name: "a".to_string(),
        client_id: " ".to_string(),
        client_secret: "s".to_string(),
    });
    let err = c.validate().unwrap_err();
    match err {
        AppError::ConfigError(m) => {
            assert!(m.ends_with("Production should use a secure 'https://' HCP connection, HCP client ID cannot be empty in production"))
        }
        _ => panic!("expected a config error"),
    }
}

#[test]
fn database_config_checks() {
    assert!(db("wss://db", "app", "secret", "ns", "db").validate().is_ok());
    assert!(db("memory", "app", "secret", "ns", "db").validate().is_ok());
    match db(" ", "root", "root", "", "db").validate() {
        Err(AppError::ConfigError(m)) => assert_eq!(
            m,
            "Invalid database configuration: Database endpoint cannot be empty, Database namespace cannot be empty, \
Using default 'root' username in production is insecure, Using default 'root' password in production is insecure"
        ),
        _ => panic!("expected an error"),
    }
    match db("ws://db", "a", "b", "ns", "db").validate() {
        Err(AppError::ConfigError(m)) => {
            assert_eq!(m, "Invalid database configuration: Production should use a secure 'wss://' connection")
        }
        _ => panic!("expected an error"),
    }
}

#[test]
fn server_checks() {
    match Server::new("0.0.0.0".to_string(), 0).validate() {
        Err(AppError::ConfigError(m)) => assert_eq!(m, "Invalid server port: '0' is not a valid port number"),
        _ => panic!("expected an error"),
    }
    match Server::new("  ".to_string(), 80).validate() {
        Err(AppError::ConfigError(m)) => assert_eq!(m, "Server address cannot be empty"),
        _ => panic!("expected an error"),
    }
    assert!(Server::new("localhost".to_string(), 80).validate().is_ok());
}

#[test]
fn compact_configs_from_app_config() {
    let c = AppConfig::default();
    let d = DatabaseConfig::from_app_config(&c);
    assert_eq!(d.endpoint, "ws://localhost:8000");
    assert_eq!(d.namespace, "userDb");
    let s = Server::from_app_config(&c);
    assert_eq!(s.address, "0.0.0.0");
    assert_eq!(s.port, 3000);
    let j = JwtConfig::from_app_config(&c);
    assert_eq!(j.secret, b"default-insecure-jwt-secret-do-not-use-in-production".to_vec());
    assert_eq!(j.expiry_hours, 24);
    assert_eq!(JwtConfig::new(b"abc", 2).secret, vec![b'a', b'b', b'c']);
}

#[test]
fn path_limits_keep_the_last_limit_per_path() {
    let pairs = vec![("/login".to_string(), 10), ("/graphql".to_string(), 60), ("/login".to_string(), 5)];
    let limits = stablemint::config_loader::PathLimits::from_pairs(&pairs);
    let entries = limits.entries();
    assert_eq!(entries.len(), 2);
    assert!(entries.contains(&("/login".to_string(), 5)));
    assert!(entries.contains(&("/graphql".to_string(), 60)));
    assert_eq!(limits.clone().entries().len(), 2);
}
