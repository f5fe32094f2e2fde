use botserver::retry_step;
use botserver::timeout_outcome;
use botserver::ResilienceError;
use botserver::RetryConfig;
use botserver::RetryDecision;

/// Drives the retry decision loop against an operation simulated by its
/// outcomes: `None` is a success, `Some(e)` a failure with error `e`.
/// Returns how often the operation ran and the terminal result.
fn drive_retry(
    config: &RetryConfig,
    outcomes: &[Option<&str>],
) -> (u32, Result<(), ResilienceError>) {
    let mut attempt: u32 = 1;
    let mut invocations: u32 = 0;
    loop {
        invocations += 1;
        let outcome = outcomes[(invocations - 1) as usize];
        match outcome {
            None => return (invocations, Ok(())),
            Some(e) => match retry_step(config, attempt, e) {
                RetryDecision::Stop(err) => return (invocations, Err(err)),
                RetryDecision::Backoff(_delay_ms) => {
                    attempt += 1;
                },
            },
        }
    }
}

#[test]
fn test_retry_exhausts_attempts() {
    let config = RetryConfig::default().with_max_attempts(3);
    let outcomes = [
        Some("connection refused"),
        Some("connection refused"),
        Some("connection refused"),
    ];
    let (invocations, result) = drive_retry(&config, &outcomes);
    assert_eq!(invocations, 3);
    assert_eq!(
        result,
        Err(ResilienceError::RetriesExhausted {
            attempts: 3,
            last_error: "connection refused".to_string(),
        })
    );
}

#[test]
fn test_retry_stops_on_non_retryable_error() {
    let config = RetryConfig::default();
    let outcomes = [Some("bad request"), Some("bad request"), Some("bad request")];
    let (invocations, result) = drive_retry(&config, &outcomes);
    assert_eq!(invocations, 1);
    assert_eq!(
        result,
        Err(ResilienceError::Operation("bad request".to_string()))
    );
}

#[test]
fn test_retry_returns_on_success() {
    let config = RetryConfig::default().with_max_attempts(5);
    let outcomes = [Some("timeout talking to backend"), None, None, None, None];
    let (invocations, result) = drive_retry(&config, &outcomes);
    assert_eq!(invocations, 2);
    assert_eq!(result, Ok(()));
}

#[test]
fn test_timeout_outcome_completed() {
    assert_eq!(timeout_outcome(100, Some(42)), Ok(42));
}

#[test]
fn test_timeout_outcome_elapsed() {
    assert_eq!(
        timeout_outcome::<i32>(10, None),
        Err(ResilienceError::Timeout { duration_ms: 10 })
    );
}

#[test]
fn test_delay_bounds_hold_for_defaults() {
    let config = RetryConfig::default();
    let ceiling = 30_000 + 30_000 * 200 / 1000;
    for attempt in 1..=30 {
        let delay = config.calculate_delay(attempt);
        assert!(delay >= 1, "attempt {} got delay {}", attempt, delay);
        assert!(delay <= ceiling, "attempt {} got delay {}", attempt, delay);
    }
}

#[test]
fn test_delay_monotonic_without_jitter() {
    let config = RetryConfig::default().with_jitter_permille(0);
    assert_eq!(config.calculate_delay(1), 100);
    assert_eq!(config.calculate_delay(2), 200);
    assert_eq!(config.calculate_delay(3), 400);
    assert_eq!(config.calculate_delay(9), 25_600);
    assert_eq!(config.calculate_delay(10), 30_000);
    assert_eq!(config.calculate_delay(11), 30_000);
    let mut previous: u64 = 0;
    for attempt in 1..=20 {
        let delay = config.calculate_delay(attempt);
        assert!(delay >= previous, "delays must never shrink");
        previous = delay;
    }
}

#[test]
fn test_delay_is_deterministic() {
    let config = RetryConfig::aggressive();
    for attempt in 1..=10 {
        assert_eq!(
            config.calculate_delay(attempt),
            config.calculate_delay(attempt)
        );
    }
}

#[test]
fn test_delay_exact_values_with_jitter() {
    let config = RetryConfig::default();
    // attempt 1: base 100ms; jitter unit 0.618..., so +100*0.2*0.236... = +4ms
    assert_eq!(config.calculate_delay(1), 104);
    // attempt 2: base 200ms; jitter unit 0.236..., so -200*0.2*0.527... = -21ms
    assert_eq!(config.calculate_delay(2), 179);
}

#[test]
fn test_delay_floor_is_one_millisecond() {
    let config = RetryConfig::default()
        .with_initial_delay_ms(0)
        .with_max_delay_ms(0);
    assert_eq!(config.calculate_delay(1), 1);
    assert_eq!(config.calculate_delay(7), 1);
}

#[test]
fn test_default_predicate_substrings() {
    let config = RetryConfig::default();
    assert!(config.is_retryable("timeout talking to backend"));
    assert!(config.is_retryable("connection refused"));
    assert!(config.is_retryable("temporarily unavailable"));
    assert!(config.is_retryable("upstream returned 503"));
    assert!(config.is_retryable("upstream returned 429"));
    assert!(!config.is_retryable("bad request"));
    assert!(!config.is_retryable(""));
}

#[test]
fn test_custom_predicate_substrings() {
    let config = RetryConfig::default().with_retryable(vec!["boom".to_string()]);
    assert!(config.is_retryable("kaboom"));
    assert!(!config.is_retryable("connection refused"));
}

#[test]
fn test_presets_and_builders() {
    let aggressive = RetryConfig::aggressive();
    assert_eq!(aggressive.max_attempts, 5);
    assert_eq!(aggressive.initial_delay_ms, 50);
    assert_eq!(aggressive.max_delay_ms, 10_000);
    assert_eq!(aggressive.backoff_multiplier_permille, 1500);
    assert_eq!(aggressive.jitter_factor_permille, 300);

    let conservative = RetryConfig::conservative();
    assert_eq!(conservative.max_attempts, 2);
    assert_eq!(conservative.initial_delay_ms, 500);
    assert_eq!(conservative.max_delay_ms, 5_000);

    let clamped = RetryConfig::default()
        .with_max_attempts(0)
        .with_backoff_multiplier_permille(500)
        .with_jitter_permille(5000);
    assert_eq!(clamped.max_attempts, 1);
    assert_eq!(clamped.backoff_multiplier_permille, 1000);
    assert_eq!(clamped.jitter_factor_permille, 1000);
}

#[test]
fn test_resilience_error_messages() {
    assert_eq!(
        ResilienceError::Timeout { duration_ms: 100 }.message(),
        "Operation timed out after 100ms"
    );
    assert_eq!(
        ResilienceError::RetriesExhausted {
            attempts: 3,
            last_error: "connection refused".to_string(),
        }
        .message(),
        "All 3 retry attempts exhausted. Last error: connection refused"
    );
    assert_eq!(
        ResilienceError::Operation("bad request".to_string()).message(),
        "Operation failed: bad request"
    );
}

#[test]
fn test_single_attempt_budget_exhausts_immediately() {
    let config = RetryConfig::default().with_max_attempts(1);
    let outcomes = [Some("connection refused")];
    let (invocations, result) = drive_retry(&config, &outcomes);
    assert_eq!(invocations, 1);
    assert!(matches!(
        result,
        Err(ResilienceError::RetriesExhausted { attempts: 1, .. })
    ));
}

#[test]
fn test_retry_step_with_external_verdict() {
    let config = RetryConfig::default().with_max_attempts(3);
    match botserver::retry_step_with(&config, 1, "strange failure", true) {
        RetryDecision::Backoff(delay) => assert!(delay >= 1),
        other => panic!("expected a backoff, got {:?}", other),
    }
    assert_eq!(
        botserver::retry_step_with(&config, 1, "strange failure", false),
        RetryDecision::Stop(ResilienceError::Operation("strange failure".to_string()))
    );
    assert_eq!(
        botserver::retry_step_with(&config, 3, "strange failure", true),
        RetryDecision::Stop(ResilienceError::RetriesExhausted {
            attempts: 3,
            last_error: "strange failure".to_string(),
        })
    );
}
