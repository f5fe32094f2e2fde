use botserver::check_array_length_limit;
use botserver::check_file_size_limit;
use botserver::check_loop_limit;
use botserver::check_recursion_limit;
use botserver::check_string_length_limit;
use botserver::format_limit_error_response;
use botserver::LimitExceeded;
use botserver::LimitType;
use botserver::RateLimiter;
use botserver::SystemLimits;

#[test]
fn test_user_minute_limit_boundary() {
    let mut limiter = RateLimiter::new(SystemLimits::default(), 0);
    for _ in 0..1000 {
        assert!(limiter.check_rate_limit("alice", 0).is_ok());
    }
    let err = limiter
        .check_rate_limit("alice", 0)
        .expect_err("call 1001 in the same minute window must be rejected");
    assert_eq!(err.limit_type, LimitType::ApiCallsMinute);
    assert_eq!(err.current, 1001);
    assert_eq!(err.maximum, 1000);
    assert_eq!(err.retry_after_secs, Some(60));
}

#[test]
fn test_window_reset_after_minute() {
    let mut limiter = RateLimiter::new(SystemLimits::default(), 0);
    for _ in 0..1000 {
        assert!(limiter.check_rate_limit("alice", 0).is_ok());
    }
    assert!(limiter.check_rate_limit("alice", 0).is_err());
    // More than a whole window later the counter starts from zero again.
    assert!(limiter.check_rate_limit("alice", 61).is_ok());
}

#[test]
fn test_global_ceiling_trips_before_user_ceiling() {
    let mut limits = SystemLimits::default();
    limits.max_api_calls_per_minute = 10;
    let mut limiter = RateLimiter::new(limits, 0);
    // 100 distinct users each stay within their own ceiling of 10...
    for user in 0..100 {
        let name = format!("user{}", user);
        for _ in 0..10 {
            assert!(limiter.check_rate_limit(&name, 0).is_ok());
        }
    }
    // ...so the 1001st admission fails on the global ceiling (10 x 100),
    // not on any per-user one.
    let err = limiter
        .check_rate_limit("user100", 0)
        .expect_err("the global minute ceiling must trip first");
    assert_eq!(err.limit_type, LimitType::ApiCallsMinute);
    assert_eq!(err.maximum, 1000);
    assert_eq!(err.current, 1001);
}

#[test]
fn test_cleanup_removes_stale_entries_once() {
    let mut limits = SystemLimits::default();
    limits.max_api_calls_per_minute = 1;
    let mut once = RateLimiter::new(limits, 0);
    let mut twice = RateLimiter::new(limits, 0);
    assert!(once.check_rate_limit("alice", 0).is_ok());
    assert!(twice.check_rate_limit("alice", 0).is_ok());

    once.cleanup_stale_entries(8000);
    twice.cleanup_stale_entries(8000);
    twice.cleanup_stale_entries(8000);

    // Both limiters are left in the same state: alice's stale entries
    // are gone, so she gets a fresh window.
    assert!(once.check_rate_limit("alice", 8000).is_ok());
    assert!(twice.check_rate_limit("alice", 8000).is_ok());
    assert!(once.check_rate_limit("alice", 8000).is_err());
    assert!(twice.check_rate_limit("alice", 8000).is_err());
}

#[test]
fn test_cleanup_keeps_fresh_entries() {
    let mut limits = SystemLimits::default();
    limits.max_api_calls_per_minute = 1;
    let mut limiter = RateLimiter::new(limits, 0);
    assert!(limiter.check_rate_limit("alice", 0).is_ok());
    // An entry exactly at the staleness threshold is kept (the
    // comparison is strict), so within the same minute window the
    // earlier call still counts.
    limiter.cleanup_stale_entries(7200);
    assert!(limiter.check_rate_limit("alice", 50).is_err());
}

#[test]
fn test_check_loop_limit() {
    assert!(check_loop_limit(5, 10).is_ok());
    let err = check_loop_limit(10, 10).expect_err("reaching the ceiling is rejected");
    assert_eq!(err.limit_type, LimitType::LoopIterations);
    assert_eq!(err.current, 10);
    assert_eq!(err.maximum, 10);
    assert_eq!(err.retry_after_secs, None);
}

#[test]
fn test_check_recursion_limit() {
    assert!(check_recursion_limit(99, 100).is_ok());
    let err = check_recursion_limit(100, 100).expect_err("reaching the ceiling is rejected");
    assert_eq!(err.limit_type, LimitType::RecursionDepth);
    assert_eq!(err.current, 100);
}

#[test]
fn test_check_file_size_limit() {
    assert!(check_file_size_limit(10, 10).is_ok());
    let err = check_file_size_limit(11, 10).expect_err("exceeding the ceiling is rejected");
    assert_eq!(err.limit_type, LimitType::FileSize);
    assert_eq!(err.current, 11);
    assert_eq!(err.maximum, 10);
}

#[test]
fn test_check_string_length_limit() {
    assert!(check_string_length_limit(8, 8).is_ok());
    let err = check_string_length_limit(9, 8).expect_err("exceeding the ceiling is rejected");
    assert_eq!(err.limit_type, LimitType::StringLength);
}

#[test]
fn test_check_array_length_limit() {
    assert!(check_array_length_limit(3, 4).is_ok());
    let err = check_array_length_limit(5, 4).expect_err("exceeding the ceiling is rejected");
    assert_eq!(err.limit_type, LimitType::ArrayLength);
}

#[test]
fn test_limit_exceeded_message() {
    let err = LimitExceeded {
        limit_type: LimitType::ApiCallsMinute,
        current: 1001,
        maximum: 1000,
        retry_after_secs: Some(60),
    };
    assert_eq!(
        err.message(),
        "Limit exceeded for api_calls_minute: 1001 > 1000 (max)"
    );
}

#[test]
fn test_format_limit_error_response() {
    let err = LimitExceeded {
        limit_type: LimitType::ApiCallsMinute,
        current: 1001,
        maximum: 1000,
        retry_after_secs: Some(60),
    };
    let (status, body) = format_limit_error_response(&err);
    assert_eq!(status, 429);
    assert_eq!(
        body,
        "{\"current\":1001,\"error\":\"rate_limit_exceeded\",\
         \"limit_type\":\"api_calls_minute\",\"maximum\":1000,\
         \"message\":\"Limit exceeded for api_calls_minute: 1001 > 1000 (max)\",\
         \"retry_after_secs\":60}"
    );
}

#[test]
fn test_format_limit_error_response_no_hint() {
    let err = LimitExceeded {
        limit_type: LimitType::FileSize,
        current: 11,
        maximum: 10,
        retry_after_secs: None,
    };
    let (status, body) = format_limit_error_response(&err);
    assert_eq!(status, 429);
    assert!(body.ends_with("\"retry_after_secs\":null}"));
    assert!(body.contains("\"limit_type\":\"file_size\""));
}

#[test]
fn test_system_limits_defaults() {
    let limits = SystemLimits::default();
    assert_eq!(limits.max_api_calls_per_minute, 1000);
    assert_eq!(limits.max_api_calls_per_hour, 10_000);
    assert_eq!(limits.max_loop_iterations, 100_000);
    assert_eq!(limits.max_file_size_bytes, 100 * 1024 * 1024);
    assert_eq!(limits.rate_limit_window_seconds, 60);
    assert_eq!(limits.rate_limit_burst_permille, 1500);
}

#[test]
fn test_user_hour_limit() {
    let mut limits = SystemLimits::default();
    limits.max_api_calls_per_minute = 100;
    limits.max_api_calls_per_hour = 150;
    let mut limiter = RateLimiter::new(limits, 0);
    // Two minute windows of 100 and 50 calls stay under both ceilings...
    for _ in 0..100 {
        assert!(limiter.check_rate_limit("bob", 0).is_ok());
    }
    for _ in 0..50 {
        assert!(limiter.check_rate_limit("bob", 100).is_ok());
    }
    // ...and the next call breaches the hour ceiling.
    let err = limiter
        .check_rate_limit("bob", 100)
        .expect_err("the hour ceiling must trip");
    assert_eq!(err.limit_type, LimitType::ApiCallsHour);
    assert_eq!(err.maximum, 150);
    assert_eq!(err.current, 151);
    assert_eq!(err.retry_after_secs, Some(3600));
}
