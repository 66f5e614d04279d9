use stablemint::api_limiter::RateLimitInfo;
use stablemint::error::AppError;
use stablemint::http_policy::{
    choose_client_ip, completion_log, error_override, extract_client_id, first_forwarded_address, info_headers,
    path_identifier, security_headers, status_headers, CompletionLevel,
};
use stablemint::jwt::claims_at;
use stablemint::redis_limiter::RateLimitStatus;
use stablemint::secrets::{bearer, hcp_get_failure, secret_value, SecretsClient, VaultClient};

#[test]
fn client_identity() {
    assert_eq!(extract_client_id(Some("key-1"), Some("10.0.0.1".to_string())), "key-1");
    assert_eq!(extract_client_id(None, Some("10.0.0.1".to_string())), "10.0.0.1");
    assert_eq!(extract_client_id(None, None), "unknown");
    assert_eq!(first_forwarded_address(" 1.2.3.4 , 5.6.7.8"), "1.2.3.4");
    assert_eq!(first_forwarded_address("9.9.9.9"), "9.9.9.9");
    assert_eq!(choose_client_ip(None, Some("2.2.2.2".to_string()), Some("3.3.3.3".to_string())), Some("2.2.2.2".to_string()));
    assert_eq!(path_identifier("c", "/api"), "c:/api");
}

#[test]
fn response_headers() {
    let st = RateLimitStatus { attempts: 1, limit: 5, remaining: 4, window_reset: 30, block_reset: Some(9), is_blocked: true };
    let h = status_headers(&st);
    assert_eq!(h.len(), 4);
    assert_eq!(h[0], ("X-RateLimit-Limit".to_string(), "5".to_string()));
    assert_eq!(h[3], ("X-RateLimit-BlockReset".to_string(), "9".to_string()));
    let i = info_headers(&RateLimitInfo { limit: 10, remaining: 0, reset_time: 42 });
    assert_eq!(i[2], ("X-RateLimit-Reset".to_string(), "42".to_string()));
    assert_eq!(security_headers()[1], ("X-Frame-Options".to_string(), "DENY".to_string()));
    assert_eq!(completion_log(200), (CompletionLevel::Info, "Request completed"));
    assert_eq!(completion_log(404).0, CompletionLevel::Warn);
    assert_eq!(completion_log(503).0, CompletionLevel::Error);
}

#[test]
fn error_overrides() {
    let (code, body) = error_override(413, "413 Payload Too Large").unwrap();
    assert_eq!(code, 413);
    assert_eq!(body.code, "PAYLOAD_TOO_LARGE");
    let (code, body) = error_override(502, "502 Bad Gateway").unwrap();
    assert_eq!(code, 500);
    assert_eq!(body.status, "502 Bad Gateway");
    assert_eq!(body.message, "An internal server error occurred");
    assert!(error_override(404, "404 Not Found").is_none());
}

#[test]
fn token_claims() {
    let c = claims_at("user123", "testuser", 1_000, 10);
    assert_eq!(c.iat, 1_000);
    assert_eq!(c.exp, 1_000 + 36_000);
    assert_eq!(c.sub, "user123");
}

#[test]
fn secret_clients() {
    let mut c = SecretsClient::new("https://api", "org", "proj", "app", "id", "secret");
    assert!(!c.is_authenticated());
    assert_eq!(
        c.secret_open_url("db"),
        "https://api/secrets/2023-11-28/organizations/org/projects/proj/apps/app/secrets/db:open"
    );
    c.set_token("t".to_string());
    assert_eq!(c.token(), Some("t".to_string()));
    assert_eq!(c.auth_request().grant_type, "client_credentials");
    assert_eq!(bearer("t"), "Bearer t");
    assert_eq!(hcp_get_failure(404, "404 Not Found", "db"), AppError::NotFoundError("Secret not found: db".to_string()));
    let mut v = VaultClient::new("http://vault");
    assert!(v.require_token().is_err());
    v.set_token("test-token".to_string());
    assert_eq!(v.require_token().unwrap(), "test-token");
    assert_eq!(v.login_url("testuser"), "http://vault/v1/auth/userpass/login/testuser");
    assert_eq!(v.kv_url("test/path"), "http://vault/v1/kv/test/path");
    let entries = vec![("test-key".to_string(), "test-value".to_string())];
    assert_eq!(secret_value(&entries, "test-key", "test/path").unwrap(), "test-value");
    match secret_value(&entries, "other", "test/path") {
        Err(AppError::NotFoundError(m)) => assert_eq!(m, "Key 'other' not found in secret at path: test/path"),
        _ => panic!("expected an error"),
    }
}
