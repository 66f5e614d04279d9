use stablemint::config_loader::{AppConfig, Argon2Config, PasswordConfig};
use stablemint::error::AppError;
use stablemint::password::{argon2_variant, hash_password, verify_password, Argon2Variant};
use stablemint::validation::{matches_email, matches_username, sanitize_string, validate_email, validate_name, validate_password, validate_username, EMAIL_PATTERN, USERNAME_PATTERN};

fn test_rules() -> PasswordConfig {
    PasswordConfig {
        min_length: 10,
        require_uppercase: true,
        require_lowercase: true,
        require_number: true,
        require_special: true,
        argon2: Argon2Config { variant: "argon2id".to_string(), memory: 32768, iterations: 2, parallelism: 2 },
    }
}

#[test]
fn test_config_based_password_validation() {
    let mut config = AppConfig::default();
    config.security.password = test_rules();
    let rules = &config.security.password;

    let good_password = "StrongP@ss123";
    assert!(validate_password(good_password, rules).is_ok(), "Password should pass validation with the configured requirements");
    let short_password = "Short@1";
    assert!(validate_password(short_password, rules).is_err(), "Password that's too short should fail validation");
    let no_upper_password = "weakp@ssword123";
    assert!(validate_password(no_upper_password, rules).is_err(), "Password without uppercase should fail validation");
    let no_lower_password = "STRONGP@SS123";
    assert!(validate_password(no_lower_password, rules).is_err(), "Password without lowercase should fail validation");
    let no_number_password = "StrongPassword@";
    assert!(validate_password(no_number_password, rules).is_err(), "Password without number should fail validation");
    let no_special_password = "StrongPassword123";
    assert!(validate_password(no_special_password, rules).is_err(), "Password without special character should fail validation");
}

#[test]
fn password_messages() {
    let rules = test_rules();
    match validate_password("   ", &rules) {
        Err(AppError::ValidationError(m)) => assert_eq!(m, "Password cannot be empty"),
        _ => panic!("expected an error"),
    }
    match validate_password("Short@1", &rules) {
        Err(AppError::ValidationError(m)) => assert_eq!(m, "Password must be at least 10 characters long"),
        _ => panic!("expected an error"),
    }
    match validate_password("abcdefghijkl", &rules) {
        Err(AppError::ValidationError(m)) => assert_eq!(
            m,
            "Password must contain at least one uppercase letter, one number, one special character (@$!%*?&#^-_+=.,:;)"
        ),
        _ => panic!("expected an error"),
    }
}

#[test]
fn usernames() {
    assert!(validate_username("alice_01").is_ok());
    assert!(validate_username("a-b").is_ok());
    match validate_username("  ") {
        Err(AppError::ValidationError(m)) => assert_eq!(m, "Username cannot be empty"),
        _ => panic!("expected an error"),
    }
    assert!(validate_username("ab").is_err());
    assert!(validate_username("has space").is_err());
    assert!(validate_username(&"x".repeat(31)).is_err());
    assert!(validate_username(&"x".repeat(30)).is_ok());
}

#[test]
fn emails() {
    assert!(validate_email("alice@example.com").is_ok());
    assert!(validate_email("first.last+tag@mail.example.org").is_ok());
    match validate_email("") {
        Err(AppError::ValidationError(m)) => assert_eq!(m, "Email cannot be empty"),
        _ => panic!("expected an error"),
    }
    match validate_email("not-an-email") {
        Err(AppError::ValidationError(m)) => assert_eq!(m, "Invalid email format"),
        _ => panic!("expected an error"),
    }
    assert!(validate_email("Alice@Example.com").is_err());
}

#[test]
fn names() {
    assert!(validate_name("Al").is_ok());
    match validate_name(" A ") {
        Err(AppError::ValidationError(m)) => assert_eq!(m, "Name must be at least 2 characters long"),
        _ => panic!("expected an error"),
    }
    match validate_name("   ") {
        Err(AppError::ValidationError(m)) => assert_eq!(m, "Name cannot be empty"),
        _ => panic!("expected an error"),
    }
    match validate_name(&"n".repeat(101)) {
        Err(AppError::ValidationError(m)) => assert_eq!(m, "Name cannot exceed 100 characters"),
        _ => panic!("expected an error"),
    }
}

#[test]
fn sanitizing() {
    assert_eq!(sanitize_string("  hello world \n"), "hello world");
    assert_eq!(sanitize_string(""), "");
}

#[test]
fn test_password_hash_and_verify() {
    // The configured Argon2 settings, as the service loads them.
    let argon = AppConfig::default().security.password.argon2;
    let hash = hash_password("secure_password123", &argon).expect("Should hash password");
    let ok = verify_password("secure_password123", &hash).expect("Should verify password");
    assert!(ok, "Password verification should succeed");
    let wrong = verify_password("wrong_password", &hash).expect("Should verify password");
    assert!(!wrong, "Wrong password verification should fail");
}

#[test]
fn bad_argon2_settings_and_hashes() {
    let argon = Argon2Config { variant: "argon2i".to_string(), memory: 4, iterations: 1, parallelism: 1 };
    match hash_password("pw", &argon) {
        Err(AppError::ServerError(m)) => assert_eq!(m, "Failed to create Argon2 params: memory cost is too small"),
        _ => panic!("expected an error"),
    }
    let argon = Argon2Config { variant: "argon2d".to_string(), memory: 64, iterations: 0, parallelism: 1 };
    match hash_password("pw", &argon) {
        Err(AppError::ServerError(m)) => assert_eq!(m, "Failed to create Argon2 params: time cost is too small"),
        _ => panic!("expected an error"),
    }
    match verify_password("pw", "not a hash") {
        Err(AppError::ServerError(m)) => assert!(m.starts_with("Invalid password hash: ")),
        _ => panic!("expected an error"),
    }
    assert_eq!(argon2_variant("ARGON2I"), Argon2Variant::Argon2i);
    assert_eq!(argon2_variant("argon2d"), Argon2Variant::Argon2d);
    assert_eq!(argon2_variant("anything"), Argon2Variant::Argon2id);
}

#[test]
fn hash_has_configured_phc_prefix() {
    let argon = Argon2Config { variant: "argon2d".to_string(), memory: 8192, iterations: 2, parallelism: 1 };
    let hash = hash_password("pw", &argon).unwrap();
    assert!(hash.starts_with("$argon2d$v=19$m=8192,t=2,p=1$"));
    assert_eq!(verify_password("pw", &hash), Ok(true));
}

const SAMPLES: &[&str] = &[
    "", "a", "@", "a@b", "a@b.c", "a@b.co", "a@b.com", "john.doe@example.com", "john..doe@example.com",
    ".john@example.com", "john.@example.com", "user+tag@mail.example.org", "user_name@sub-domain.example.io",
    "USER@example.com", "user@Example.com", "user@example.COM", "user@-example.com", "user@example-.com",
    "user@ex--ample.com", "user@ex.-ample.com", "user@example.c0m", "user@example.comextra", "user@example.co!",
    "user@@example.com", "us@er@example.com", "user@example..com", "user@example.com.", "u@1.ab", "u@a.b.cd",
    "u@a-b.c-d.ef", "u@ab", "u@.ab", "+@a.bc", "_@a.bc", "a.b.c@d.ef", "a@b.cd trailing", "é@a.bc", "a@b.cé",
    "a@b.c\nd", "a b@c.de", "user@example.technology", "a@b-c.d-e.fg", "a@b.c.de",
];

#[test]
fn email_matcher_agrees_with_the_pattern() {
    let re = regex::Regex::new(EMAIL_PATTERN).unwrap();
    for s in SAMPLES {
        assert_eq!(matches_email(s), re.is_match(s), "disagreement on {:?}", s);
    }
    assert!(matches_email("john.doe@example.com"));
    assert!(!matches_email("john..doe@example"));
}

#[test]
fn username_matcher_agrees_with_the_pattern() {
    let re = regex::Regex::new(USERNAME_PATTERN).unwrap();
    let x30 = "x".repeat(30);
    let x31 = "x".repeat(31);
    let extra = ["abc", "ab", "a_b-c", x30.as_str(), x31.as_str(), "Ab9_-"];
    for s in SAMPLES.iter().copied().chain(extra) {
        assert_eq!(matches_username(s), re.is_match(s), "disagreement on {:?}", s);
    }
}
