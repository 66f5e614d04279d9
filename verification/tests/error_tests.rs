use stablemint::authz::{operation_permission, Permission, RecordOperation};
use stablemint::error::{AppError, AppErrorExt, LogLevel};
use stablemint::models::{Wallet, WalletInfo};

#[test]
fn helper_messages() {
    assert_eq!(
        AppError::invalid_credentials(),
        AppError::AuthenticationError("Invalid username or password. Please check your credentials and try again.".to_string())
    );
    assert_eq!(
        AppError::account_locked(90),
        AppError::RateLimitError(
            "Your account has been temporarily locked for security. Please try again in 90 seconds or reset your password.".to_string()
        )
    );
    assert_eq!(AppError::token_expired(), AppError::AuthenticationError("Your session has expired. Please log in again to continue.".to_string()));
    assert_eq!(AppError::token_invalid(), AppError::AuthenticationError("Invalid authentication token. Please log in again.".to_string()));
    assert_eq!(AppError::resource_not_found("User", "42"), AppError::NotFoundError("User with identifier '42' was not found.".to_string()));
    assert_eq!(AppError::resource_exists("User", "bob"), AppError::ResourceExistsError("User with identifier 'bob' already exists.".to_string()));
    assert_eq!(
        AppError::resource_exists_with("User", "username", "bob"),
        AppError::ResourceExistsError("User with username 'bob' already exists.".to_string())
    );
    assert_eq!(AppError::validation("email", "bad"), AppError::ValidationError("Validation failed for 'email': bad".to_string()));
    assert_eq!(
        AppError::database_operation_failed("insert", "users"),
        AppError::DatabaseError("Database operation 'insert' failed on resource 'users'".to_string())
    );
}

#[test]
fn rendering_and_responses() {
    let e = AppError::ValidationError("name too short".to_string());
    assert_eq!(e.to_display_string(), "Validation error: name too short");
    assert_eq!(e.status_code(), 400);
    let r = e.error_response();
    assert_eq!(r.status, "400 Bad Request");
    assert_eq!(r.message, "name too short");
    assert_eq!(r.code, "VALIDATION_ERROR");
    assert_eq!(r.details, Some("Validation error: name too short".to_string()));
    assert_eq!(e.response_log_level(), LogLevel::Warn);
    let db = AppError::DatabaseError("connection refused at 10.0.0.3".to_string());
    let r = db.error_response();
    assert_eq!(r.status, "500 Internal Server Error");
    assert_eq!(r.message, "Database operation failed");
    assert_eq!(r.details, None);
    assert_eq!(db.response_log_level(), LogLevel::Error);
    let f = db.field_error_parts();
    assert_eq!(f.code, "DATABASE_ERROR");
    assert_eq!(f.details, "A database error occurred");
    assert_eq!(f.message, "Database error: connection refused at 10.0.0.3");
    assert_eq!(db.field_log_level(), LogLevel::Error);
    assert_eq!(AppError::RateLimitError("slow down".to_string()).status_code(), 429);
    assert_eq!(AppError::NetworkError("x".to_string()).field_error_parts().code, "UNKNOWN_ERROR");
}

#[test]
fn error_conversions() {
    let failed: Result<u8, String> = Err("timeout".to_string());
    assert_eq!(failed.clone().db_err(), Err(AppError::DatabaseError("timeout".to_string())));
    assert_eq!(failed.clone().config_err(), Err(AppError::ConfigError("timeout".to_string())));
    assert_eq!(failed.server_err(), Err(AppError::ServerError("timeout".to_string())));
    let ok: Result<u8, String> = Ok(3);
    assert_eq!(ok.db_err(), Ok(3));
}

#[test]
fn wallets_and_permissions() {
    let w = Wallet::new("wallets:1".to_string(), "a@example.com".to_string(), "0xabc".to_string(), 5).with_key_id("k1".to_string());
    assert_eq!(w.key_id, Some("k1".to_string()));
    let info = WalletInfo::from_wallet(w);
    assert_eq!(info.address, "0xabc");
    assert_eq!(info.created_at, 5);
    assert_eq!(operation_permission(RecordOperation::CustomQuery), Permission::Read);
    assert_eq!(operation_permission(RecordOperation::Delete), Permission::Delete);
}
