use stablemint::auth_service::{check_registration_available, stored_user, user_lookup_result, AuthService};
use stablemint::config_loader::{AppConfig, Argon2Config};
use stablemint::db_error::{AppError as DbError, ErrorHandler, Severity};
use stablemint::db_service::{
    check_custom_query, check_namespace_and_database, connection_url_looks_valid, context_msg,
    records_by_field_statement, validate_identifier, with_context, ConnectionPool, DbCredentials,
};
use stablemint::error::AppError;
use stablemint::login_limiter::LoginRateLimiter;
use stablemint::logging::{log_db_operation, log_security_event, sanitize_for_logging, DbOperation, LogLevel};
use stablemint::models::{clean_record_id, LoginInput, RegisterInput, User, UserProfile};
use stablemint::password::hash_password;

#[test]
fn handler_answers() {
    assert_eq!(ErrorHandler::handle(DbError::NotFound), ("Resource not found".to_string(), Some(404)));
    assert_eq!(
        ErrorHandler::handle(DbError::InvalidInput("bad id".to_string())),
        ("Invalid input: bad id".to_string(), Some(400))
    );
    assert_eq!(ErrorHandler::handle(DbError::AuthError("secret detail".to_string())), ("Authentication failed".to_string(), Some(401)));
    assert_eq!(ErrorHandler::handle(DbError::AccessDenied("x".to_string())), ("Access denied".to_string(), Some(403)));
    assert_eq!(ErrorHandler::handle(DbError::Internal("boom".to_string())), ("An internal error occurred".to_string(), Some(500)));
    assert_eq!(DbError::QueryError("q".to_string()).error_code(), "DB_QUERY_001");
    assert_eq!(DbError::Database("disk".to_string()).to_display_string(), "Database error: disk");
    assert_eq!(DbError::Internal("x".to_string()).to_display_string(), "Internal server error");
    assert_eq!(DbError::NotFound.severity(), Severity::Info);
}

#[test]
fn log_records() {
    let r = log_db_operation(DbOperation::Create, "users", Some("u1"), None, true);
    assert_eq!(r.level, LogLevel::Info);
    assert_eq!(r.message, "Database operation succeeded");
    assert_eq!(r.fields[0], ("operation".to_string(), Some("create".to_string())));
    assert_eq!(r.fields[3], ("record_id".to_string(), None));
    let s = log_security_event("login", "u1", None, Some("read"), false, Some("bad pin"));
    assert_eq!(s.level, LogLevel::Warn);
    assert_eq!(s.message, "Security event failed");
    assert_eq!(s.fields.len(), 5);
    assert_eq!(s.fields[4], ("details".to_string(), Some("bad pin".to_string())));
}

#[test]
fn masking() {
    assert_eq!(sanitize_for_logging("abcd"), "[REDACTED]");
    assert_eq!(sanitize_for_logging("password123"), "pa****23");
    assert_eq!(sanitize_for_logging(""), "[REDACTED]");
    assert_eq!(sanitize_for_logging("héllo!"), "hé****o!");
    assert_eq!(sanitize_for_logging("héll"), "[REDACTED]");
}

#[test]
fn pool_keeps_at_most_its_size() {
    let mut pool: ConnectionPool<u32> = ConnectionPool::new("memory", 2);
    assert_eq!(pool.connection_url(), "memory");
    pool.return_connection(1);
    pool.return_connection(2);
    pool.return_connection(3);
    assert_eq!(pool.take_idle(), Some(2));
    assert_eq!(pool.take_idle(), Some(1));
    assert_eq!(pool.take_idle(), None);
}

#[test]
fn credentials_and_names() {
    let c = DbCredentials::new("admin", "s3cret");
    assert_eq!(c.get_username(), "admin");
    assert_eq!(c.get_password(), "s3cret");
    assert!(!c.debug_string().contains("s3cret"));
    assert!(connection_url_looks_valid("wss://db"));
    assert!(!connection_url_looks_valid("http://db"));
    assert!(check_namespace_and_database("ns", "db").is_ok());
    match check_namespace_and_database(" ", "db") {
        Err(AppError::ValidationError(m)) => assert_eq!(m, "Database namespace cannot be empty"),
        _ => panic!("expected an error"),
    }
}

#[test]
fn statements_and_custom_queries() {
    assert_eq!(records_by_field_statement("users", "age").unwrap(), "SELECT * FROM users WHERE age = $value");
    match records_by_field_statement("users", "age; DROP TABLE users;") {
        Err(AppError::ValidationError(m)) => assert!(m.starts_with("Invalid identifier 'age; DROP TABLE users;'")),
        _ => panic!("expected an error"),
    }
    assert!(validate_identifier("_x1").is_ok());
    assert!(check_custom_query("SELECT * FROM users WHERE age >= $min_age", &vec!["min_age".to_string()]).is_ok());
    match check_custom_query("SELECT * FROM users WHERE name = '${x}'", &vec![]) {
        Err(AppError::ValidationError(m)) => {
            assert_eq!(m, "Custom SQL queries must use parameterized queries ($param) for security")
        }
        _ => panic!("expected an error"),
    }
    match check_custom_query("SELECT 1", &vec!["ok".to_string(), "bad-name".to_string()]) {
        Err(AppError::ValidationError(m)) => assert_eq!(
            m,
            "Invalid parameter name 'bad-name': must contain only alphanumeric characters and underscores"
        ),
        _ => panic!("expected an error"),
    }
    let e = with_context(AppError::DatabaseError("timeout".to_string()), &context_msg("create", "users"));
    assert_eq!(e, AppError::DatabaseError("Failed to create users record: timeout".to_string()));
    assert_eq!(with_context(AppError::ValidationError("v".to_string()), "ctx"), AppError::ValidationError("v".to_string()));
}

fn user(name: &str, hash: &str) -> User {
    User::new("⟨id-1⟩".to_string(), "Alice".to_string(), name.to_string(), "a@example.com".to_string(), hash.to_string(), "0xabc".to_string(), 7)
}

#[test]
fn registration_steps() {
    let service = AuthService::new(AppConfig::default().security.password);
    let input = RegisterInput {
        name: "  Alice ".to_string(),
        username: " alice_01 ".to_string(),
        email: " alice@example.com ".to_string(),
        password: "Str0ng!Pass".to_string(),
    };
    let ready = service.prepare_registration(&input).unwrap();
    assert_eq!(ready.name, "Alice");
    assert_eq!(ready.username, "alice_01");
    assert_eq!(ready.email, "alice@example.com");
    assert_eq!(ready.password, "Str0ng!Pass");
    let bad = RegisterInput { password: "weak".to_string(), ..input };
    assert!(service.prepare_registration(&bad).is_err());
    match check_registration_available(1, None) {
        Err(AppError::ValidationError(m)) => assert_eq!(m, "Username already taken"),
        _ => panic!("expected an error"),
    }
    match check_registration_available(0, Some(2)) {
        Err(AppError::ValidationError(m)) => assert_eq!(m, "Email already registered"),
        _ => panic!("expected an error"),
    }
    assert!(check_registration_available(0, Some(0)).is_ok());
    assert_eq!(AuthService::wallet_address(&[0xab, 0x01]), "0xab01");
    let u = user("alice", "h");
    assert_eq!(stored_user(u.clone(), Ok(None)).unwrap().username, "alice");
    assert!(stored_user(u, Err("down".to_string())).is_err());
}

#[test]
fn login_steps() {
    let argon = Argon2Config { variant: "argon2id".to_string(), memory: 8192, iterations: 1, parallelism: 1 };
    let hash = hash_password("Str0ng!Pass", &argon).unwrap();
    let mut service = AuthService::new(AppConfig::default().security.password)
        .with_rate_limiter(LoginRateLimiter::new(2, 300_000, 900_000));
    match service.begin_login(&LoginInput { username: "  ".to_string(), password: "x".to_string() }, 0) {
        Err(AppError::ValidationError(m)) => assert_eq!(m, "Username cannot be empty"),
        _ => panic!("expected an error"),
    }
    let name = service.begin_login(&LoginInput { username: " alice ".to_string(), password: "nope".to_string() }, 0).unwrap();
    assert_eq!(name, "alice");
    match service.finish_login(&name, "nope", Some(Ok(vec![user("alice", &hash)])), 0) {
        Err(AppError::AuthenticationError(m)) => assert_eq!(m, "Invalid username or password"),
        _ => panic!("expected a refusal"),
    }
    match service.finish_login(&name, "x", Some(Ok(vec![])), 1) {
        Err(AppError::AuthenticationError(m)) => assert_eq!(m, "Invalid username or password"),
        _ => panic!("expected a refusal"),
    }
    assert!(service.begin_login(&LoginInput { username: "alice".to_string(), password: "p".to_string() }, 2).is_err());
    let mut fresh = AuthService::new(AppConfig::default().security.password);
    let ok = fresh.finish_login("alice", "Str0ng!Pass", Some(Ok(vec![user("alice", &hash)])), 5).unwrap();
    assert_eq!(ok.username, "alice");
    match fresh.finish_login("alice", "p", None, 5) {
        Err(AppError::ServerError(m)) => assert_eq!(m, "Database not available"),
        _ => panic!("expected an error"),
    }
}

#[test]
fn profiles_and_ids() {
    let p = UserProfile::from_user(user("alice", "secret-hash"));
    assert_eq!(p.username, "alice");
    assert_eq!(clean_record_id("⟨id-1⟩"), "id-1");
    assert_eq!(clean_record_id("plain"), "plain");
    assert_eq!(clean_record_id("⟨⟨x"), "x");
    match user_lookup_result(Some(Ok(None))) {
        Err(AppError::NotFoundError(m)) => assert_eq!(m, "User not found"),
        _ => panic!("expected an error"),
    }
    assert_eq!(user_lookup_result(Some(Ok(Some(user("bob", "h"))))).unwrap().username, "bob");
}
