use stablemint::authn::{authorize, auth_user_from_validation, request_token, token_error, AuthHeader, AuthUser, Claims, JwtAuth, JwtConfig};
use stablemint::authz::{
    access_check, authorize_with_access, is_valid_identifier, operation_gate, operation_permission, operation_resource, AccessCheck,
    AuthContext, Permission, RecordOperation, Resource, Role,
};
use stablemint::db_error::AppError;

#[test]
fn test_extract_token_from_header() {
    let auth_header = "Bearer token123";
    let token = JwtAuth::extract_token_from_header(auth_header).unwrap();
    assert_eq!(token, "token123");

    let auth_header = "Basic token123";
    let result = JwtAuth::extract_token_from_header(auth_header);
    assert!(result.is_err());
}

#[test]
fn test_authorize_middleware() {
    let admin_user = AuthUser { id: "admin123".to_string(), role: "Admin".to_string(), address: "0xadmin".to_string() };
    let user = AuthUser { id: "user123".to_string(), role: "User".to_string(), address: "0xuser".to_string() };
    let guest = AuthUser { id: "guest123".to_string(), role: "Guest".to_string(), address: "0xguest".to_string() };

    assert!(authorize("User", admin_user.clone()).is_ok());
    assert!(authorize("User", user.clone()).is_ok());
    assert!(authorize("User", guest.clone()).is_err());
}

#[test]
fn refused_role_gets_forbidden() {
    let guest = AuthUser { id: "g".to_string(), role: "Guest".to_string(), address: "0x".to_string() };
    match authorize("User", guest) {
        Err((code, msg)) => {
            assert_eq!(code, 403);
            assert_eq!(msg, "Insufficient permissions for this operation");
        }
        Ok(_) => panic!("guest must be refused"),
    }
}

#[test]
fn jwt_settings() {
    let c = JwtConfig::from_settings(Some("test_secret_key".to_string()), Some("48")).unwrap();
    assert_eq!(c.secret, "test_secret_key");
    assert_eq!(c.expiration_secs, 48 * 3600);
    let d = JwtConfig::from_settings(Some("k".to_string()), None).unwrap();
    assert_eq!(d.expiration_secs, 24 * 3600);
    match JwtConfig::from_settings(None, None) {
        Err(AppError::ConfigError(m)) => assert_eq!(m, "JWT_SECRET environment variable not set"),
        _ => panic!("expected a config error"),
    }
    match JwtConfig::from_settings(Some("k".to_string()), Some("soon")) {
        Err(AppError::ConfigError(m)) => assert_eq!(m, "Invalid JWT_EXPIRATION_HOURS value"),
        _ => panic!("expected a config error"),
    }
}

#[test]
fn token_errors_and_header_rejections() {
    assert_eq!(token_error(true, "ignored"), AppError::AuthError("Token expired".to_string()));
    assert_eq!(token_error(false, "InvalidSignature"), AppError::AuthError("Invalid token: InvalidSignature".to_string()));
    assert_eq!(request_token(AuthHeader::Missing), Err((401, "Missing Authorization header")));
    assert_eq!(request_token(AuthHeader::NotText), Err((400, "Invalid Authorization header")));
    assert_eq!(request_token(AuthHeader::Text("Basic x")), Err((401, "Invalid Authorization format")));
    assert_eq!(request_token(AuthHeader::Text("Bearer abc")), Ok("abc"));
    let claims = Claims { sub: "user123".to_string(), exp: 10, iat: 1, role: "User".to_string(), address: "0x123".to_string() };
    let user = auth_user_from_validation(Ok(claims)).unwrap();
    assert_eq!(user.id, "user123");
    assert_eq!(user.role, "User");
    assert_eq!(user.address, "0x123");
    assert!(auth_user_from_validation(Err(AppError::AuthError("x".to_string()))).is_err());
}

#[test]
fn roles_and_admin() {
    let reader = Role::new("reader").with_permission(Permission::Read);
    assert!(reader.has_permission(Permission::Read));
    assert!(!reader.has_permission(Permission::Delete));
    let admin = Role::new("admin").with_permissions(vec![Permission::Admin]);
    assert!(admin.has_permission(Permission::Delete));
    let ctx = AuthContext::new("u1").with_role(reader.clone());
    assert!(ctx.has_permission(Permission::Read));
    assert!(!ctx.has_permission(Permission::Create));
    let ctx2 = AuthContext::new("u2").with_roles(vec![reader, admin]);
    assert!(ctx2.has_permission(Permission::Update));
    assert_eq!(Permission::Admin.to_display_string(), "admin");
}

#[test]
fn ownership_needs_explicit_access() {
    let editor = Role::new("editor").with_permissions(vec![Permission::Read, Permission::Update]);
    let ctx = AuthContext::new("alice").with_role(editor);
    let own = Resource::new("users").with_id("1").with_owner("alice");
    let other = Resource::new("users").with_id("2").with_owner("bob");
    assert_eq!(access_check(&ctx, &own, Permission::Update), AccessCheck::Granted);
    assert_eq!(access_check(&ctx, &other, Permission::Update), AccessCheck::NeedsExplicitAccess);
    assert_eq!(access_check(&ctx, &other, Permission::Delete), AccessCheck::Denied);
    assert!(!authorize_with_access(&ctx, &other, Permission::Update, false));
    assert!(authorize_with_access(&ctx, &other, Permission::Update, true));
}

#[test]
fn operation_gates() {
    let reader = AuthContext::new("r").with_role(Role::new("reader").with_permission(Permission::Read));
    assert!(operation_gate(&reader, RecordOperation::ReadByField, true, "age").is_ok());
    match operation_gate(&reader, RecordOperation::ReadByField, true, "age; DROP TABLE users;") {
        Err(AppError::InvalidInput(m)) => assert_eq!(m, "Invalid field name: age; DROP TABLE users;"),
        _ => panic!("expected a refusal"),
    }
    match operation_gate(&reader, RecordOperation::CustomQuery, true, "") {
        Err(AppError::InvalidInput(m)) => assert_eq!(m, "Unauthorized to run custom queries"),
        _ => panic!("expected a refusal"),
    }
    match operation_gate(&reader, RecordOperation::Create, false, "") {
        Err(AppError::InvalidInput(m)) => assert_eq!(m, "Unauthorized to create this resource"),
        _ => panic!("expected a refusal"),
    }
    let r = operation_resource("users", RecordOperation::Update, "42");
    assert_eq!(r.resource_id, Some("42".to_string()));
    assert_eq!(operation_resource("users", RecordOperation::Create, "42").resource_id, None);
}

#[test]
fn identifiers() {
    assert!(is_valid_identifier("age"));
    assert!(is_valid_identifier("_private1"));
    assert!(!is_valid_identifier("1abc"));
    assert!(!is_valid_identifier(""));
    assert!(!is_valid_identifier("age; DROP TABLE users;"));
}

fn create_admin_context() -> AuthContext {
    AuthContext::new("admin_user").with_role(Role::new("admin").with_permission(Permission::Admin))
}

fn create_read_only_context() -> AuthContext {
    AuthContext::new("read_only_user").with_role(Role::new("reader").with_permission(Permission::Read))
}

fn create_editor_context() -> AuthContext {
    AuthContext::new("editor_user").with_role(
        Role::new("editor").with_permissions(vec![Permission::Read, Permission::Create, Permission::Update]),
    )
}

/// The authorization decision taken before an operation on the `users` table.
fn gate(ctx: &AuthContext, op: RecordOperation, record_id: &str, field: &str) -> Result<(), AppError> {
    let resource = operation_resource("users", op, record_id);
    let authorized = authorize_with_access(ctx, &resource, operation_permission(op), false);
    operation_gate(ctx, op, authorized, field)
}

#[test]
fn test_authorized_create() {
    let editor = create_editor_context();
    assert!(gate(&editor, RecordOperation::Create, "", "").is_ok(), "Editor should be able to create records");
    let reader = create_read_only_context();
    assert!(gate(&reader, RecordOperation::Create, "", "").is_err(), "Read-only user shouldn't be able to create records");
}

#[test]
fn test_authorized_read() {
    let admin = create_admin_context();
    assert!(gate(&admin, RecordOperation::Create, "", "").is_ok());
    let reader = create_read_only_context();
    assert!(gate(&reader, RecordOperation::ReadById, "abc123", "").is_ok(), "Reader should be able to read records");
    assert!(gate(&reader, RecordOperation::ReadByField, "", "age").is_ok(), "Should accept valid field name");
    assert!(gate(&reader, RecordOperation::ReadByField, "", "age; DROP TABLE users;").is_err(), "Should reject invalid field name");
}

#[test]
fn test_custom_query_restrictions() {
    let admin = create_admin_context();
    assert!(gate(&admin, RecordOperation::CustomQuery, "", "").is_ok(), "Admin should be able to run custom queries");
    let editor = create_editor_context();
    assert!(gate(&editor, RecordOperation::CustomQuery, "", "").is_err(), "Non-admin shouldn't run custom queries");
}

#[test]
fn claims_expire_after_the_configured_lifetime() {
    let auth = JwtAuth::new(JwtConfig::from_settings(Some("k".to_string()), Some("2")).unwrap());
    let c = auth.claims_at("user-1", "admin", "0xabc", 1_700_000_000);
    assert_eq!(c.sub, "user-1");
    assert_eq!(c.role, "admin");
    assert_eq!(c.address, "0xabc");
    assert_eq!(c.iat, 1_700_000_000);
    assert_eq!(c.exp, 1_700_000_000 + 2 * 3600);
}

#[test]
fn role_holds_each_permission_once() {
    let role = Role::new("editor")
        .with_permission(Permission::Read)
        .with_permissions(vec![Permission::Read, Permission::Update, Permission::Update]);
    assert_eq!(role.name(), "editor");
    assert_eq!(role.permissions(), &vec![Permission::Read, Permission::Update]);
    let copy = role.clone();
    assert_eq!(copy.permissions(), role.permissions());
}
