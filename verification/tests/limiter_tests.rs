use stablemint::api_limiter::ApiRateLimiter;
use stablemint::login_limiter::LoginRateLimiter;
use stablemint::redis_limiter::{
    attempt_outcome, check_block, get_limit_status_with_config, plan_attempt, plan_failure, plan_success,
    AttemptPlan, BlockCheck, FailurePlan, RateLimitConfig, SuccessPlan,
};
use stablemint::error::AppError;

#[test]
fn rate_limiter_basic() {
    let mut limiter = ApiRateLimiter::new(60, 3, 300, 0);
    for _ in 0..3 {
        assert!(limiter.check_rate_limit("test_client", "/test_path", 1).is_ok());
    }
    assert!(limiter.check_rate_limit("test_client", "/test_path", 2).is_err());
    let info = limiter.get_limit_info("test_client", "/test_path", 2).unwrap();
    assert_eq!(info.limit, 3);
    assert_eq!(info.remaining, 0);
}

#[test]
fn path_specific_limits() {
    let mut limiter = ApiRateLimiter::new(60, 10, 300, 0);
    limiter.add_path_limit("/restricted", 2);
    assert!(limiter.check_rate_limit("test_client", "/restricted", 1).is_ok());
    assert!(limiter.check_rate_limit("test_client", "/restricted", 1).is_ok());
    assert!(limiter.check_rate_limit("test_client", "/restricted", 1).is_err());
    assert!(limiter.check_rate_limit("test_client", "/default", 1).is_ok());
    assert!(limiter.check_rate_limit("other_client", "/restricted", 1).is_ok());
}

#[test]
fn window_expiry_resets_counts() {
    let mut limiter = ApiRateLimiter::new(100, 1, 200, 0);
    assert!(limiter.check_rate_limit("c", "/p", 10).is_ok());
    assert!(limiter.check_rate_limit("c", "/p", 20).is_err());
    assert!(limiter.check_rate_limit("c", "/p", 200).is_ok());
}

#[test]
fn login_lockout_and_recovery() {
    let mut limiter = LoginRateLimiter::new(3, 300_000, 900_000);
    for t in 0..3u64 {
        assert!(limiter.check_rate_limit("alice", t).is_ok());
        limiter.record_failed_attempt("alice", t);
    }
    match limiter.check_rate_limit("alice", 1_000) {
        Err(AppError::AuthenticationError(m)) => assert!(m.starts_with("Too many login attempts. Please try again in ")),
        _ => panic!("expected a lockout"),
    }
    assert!(limiter.check_rate_limit("bob", 1_000).is_ok());
    assert!(limiter.check_rate_limit("alice", 2 + 900_000).is_ok());
    limiter.record_failed_attempt("carol", 0);
    limiter.record_successful_attempt("carol");
    assert!(limiter.check_rate_limit("carol", 1).is_ok());
}

#[test]
fn shared_store_plans() {
    let config = RateLimitConfig {
        max_attempts: 3,
        window_duration: 60,
        block_duration: Some(120),
        message_template: "Test rate limit exceeded".to_string(),
    };
    match plan_attempt(100, None, None, &config) {
        AttemptPlan::Reset { now, ttl } => {
            assert_eq!(now, 100);
            assert_eq!(ttl, 60);
        }
        _ => panic!("expected a new window"),
    }
    match plan_attempt(110, Some(1), Some(100), &config) {
        AttemptPlan::Count { now, .. } => assert_eq!(now, 110),
        _ => panic!("expected a count"),
    }
    match plan_attempt(110, Some(3), Some(100), &config) {
        AttemptPlan::Block { until, error, .. } => {
            assert_eq!(until, 230);
            assert!(attempt_outcome(AttemptPlan::Block { until, ttl: 120, error }, true).is_err());
        }
        _ => panic!("expected a block"),
    }
    match plan_attempt(200, Some(3), Some(100), &config) {
        AttemptPlan::Reset { .. } => {}
        _ => panic!("an old window starts over"),
    }
    match check_block(150, Some(200), &config) {
        BlockCheck::Blocked(AppError::RateLimitError(m)) => {
            assert_eq!(m, "Test rate limit exceeded Try again in 50 seconds.")
        }
        _ => panic!("expected a block"),
    }
    assert!(matches!(check_block(250, Some(200), &config), BlockCheck::Expired));
    assert!(matches!(check_block(250, None, &config), BlockCheck::Clear));
    assert_eq!(plan_failure(5, None, Some(1), &config), FailurePlan::Reset { now: 5, ttl: 60 });
    assert_eq!(plan_failure(5, Some(1), Some(1), &config), FailurePlan::Count { now: 5, ttl: 60 });
    assert_eq!(plan_success(5, true, &config), SuccessPlan::Clear);
    assert_eq!(plan_success(5, false, &config), SuccessPlan::TouchLast { now: 5, ttl: 60 });
}

#[test]
fn shared_store_status() {
    let config = RateLimitConfig::default();
    assert!(get_limit_status_with_config(10, None, &config).is_none());
    let st = get_limit_status_with_config(100, Some((Some(2), Some(40), Some(500))), &config).unwrap();
    assert_eq!(st.attempts, 2);
    assert_eq!(st.limit, 5);
    assert_eq!(st.remaining, 3);
    assert_eq!(st.window_reset, 240);
    assert_eq!(st.block_reset, Some(400));
    assert!(st.is_blocked);
    let fresh = get_limit_status_with_config(1000, Some((Some(2), Some(40), None)), &config).unwrap();
    assert_eq!(fresh.attempts, 0);
    assert_eq!(fresh.remaining, 5);
}

#[test]
fn test_rate_limiter_basic() {
    // A one-second window, five requests, cleanup every minute; times in ms.
    let mut limiter = ApiRateLimiter::new(1_000, 5, 60_000, 0);
    let client_id = "test_client";
    let path = "/test_path";
    for _ in 0..5 {
        assert!(limiter.check_rate_limit(client_id, path, 0).is_ok());
    }
    assert!(limiter.check_rate_limit(client_id, path, 0).is_err());
    // A little over a second later the window has passed.
    assert!(limiter.check_rate_limit(client_id, path, 1_001).is_ok());
}

#[test]
fn test_path_specific_limits() {
    let mut limiter = ApiRateLimiter::new(1_000, 10, 60_000, 0);
    limiter.add_path_limit("/restricted", 2);
    let client_id = "test_client";
    for _ in 0..10 {
        assert!(limiter.check_rate_limit(client_id, "/default", 0).is_ok());
    }
    assert!(limiter.check_rate_limit(client_id, "/default", 0).is_err());
    for _ in 0..2 {
        assert!(limiter.check_rate_limit(client_id, "/restricted", 0).is_ok());
    }
    assert!(limiter.check_rate_limit(client_id, "/restricted", 0).is_err());
    assert!(limiter.check_rate_limit("other_client", "/restricted", 0).is_ok());
}

#[test]
fn test_cleanup() {
    // A 100 ms window and a cleanup every 200 ms.
    let mut limiter = ApiRateLimiter::new(100, 5, 200, 0);
    let client_id = "test_client";
    let path = "/test_path";
    for _ in 0..5 {
        assert!(limiter.check_rate_limit(client_id, path, 0).is_ok());
    }
    assert!(limiter.check_rate_limit("other_client", path, 101).is_ok());
    assert!(limiter.check_rate_limit(client_id, path, 202).is_ok());
}

/// The stored counters of one identifier, updated as the plans say.
#[derive(Default)]
struct Store {
    count: Option<usize>,
    first: Option<i64>,
    blocked_until: Option<i64>,
}

fn check(store: &mut Store, now: i64, config: &RateLimitConfig) -> Result<(), AppError> {
    match check_block(now, store.blocked_until, config) {
        BlockCheck::Blocked(e) => return Err(e),
        BlockCheck::Expired => store.blocked_until = None,
        BlockCheck::Clear => {}
    }
    let plan = plan_attempt(now, store.count, store.first, config);
    match &plan {
        AttemptPlan::Reset { now, .. } => {
            store.count = Some(1);
            store.first = Some(*now);
        }
        AttemptPlan::Count { .. } => store.count = store.count.map(|n| n + 1),
        AttemptPlan::Block { until, .. } => store.blocked_until = Some(*until),
        AttemptPlan::Reject(_) => {}
    }
    attempt_outcome(plan, true)
}

#[test]
fn shared_store_checks_block_after_the_limit() {
    // Three attempts in a three-second window, then a five-second block.
    let config = RateLimitConfig {
        max_attempts: 3,
        window_duration: 3,
        block_duration: Some(5),
        message_template: "Test rate limit exceeded".to_string(),
    };
    let mut store = Store::default();
    for t in 0..3 {
        assert!(check(&mut store, 1_000 + t, &config).is_ok());
    }
    match check(&mut store, 1_002, &config) {
        Err(AppError::RateLimitError(m)) => assert!(m.contains("Try again in 5 seconds")),
        _ => panic!("expected a block"),
    }
    assert!(check(&mut store, 1_002, &config).is_err());
}
