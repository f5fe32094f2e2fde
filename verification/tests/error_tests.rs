use botserver::BotError;

#[test]
fn test_error_display() {
    let err = BotError::config("missing API key");
    assert_eq!(err.message(), "Configuration error: missing API key");
}

#[test]
fn test_not_found_error() {
    let err = BotError::not_found("User");
    assert_eq!(err.message(), "User not found");
    assert_eq!(err.status_code(), 404);
}

#[test]
fn test_http_error_with_status() {
    let err = BotError::http(503, "Service down");
    assert_eq!(err.status_code(), 503);
    assert!(err.is_server_error());
    assert!(!err.is_client_error());
}

#[test]
fn test_validation_error() {
    let err = BotError::validation("Invalid email format");
    assert_eq!(err.status_code(), 400);
    assert!(err.is_client_error());
}

#[test]
fn test_retryable_errors() {
    assert!(BotError::rate_limited(60).is_retryable());
    assert!(BotError::service_unavailable("down").is_retryable());
    assert!(BotError::timeout(5000).is_retryable());
    assert!(!BotError::validation("bad input").is_retryable());
    assert!(!BotError::not_found("User").is_retryable());
}

#[test]
fn test_rate_limited_display() {
    let err = BotError::rate_limited(30);
    assert_eq!(err.message(), "Rate limited: retry after 30s");
    assert_eq!(err.status_code(), 429);
}

#[test]
fn test_timeout_display() {
    let err = BotError::timeout(5000);
    assert_eq!(err.message(), "Timeout after 5000ms");
    assert_eq!(err.status_code(), 504);
}

#[test]
fn test_remaining_variant_messages() {
    assert_eq!(BotError::database("lost").message(), "Database error: lost");
    assert_eq!(BotError::auth("denied").message(), "Auth error: denied");
    assert_eq!(BotError::conflict("taken").message(), "Conflict: taken");
    assert_eq!(
        BotError::service_unavailable("llm").message(),
        "Service unavailable: llm"
    );
    assert_eq!(BotError::internal("bug").message(), "Internal error: bug");
    assert_eq!(BotError::http_msg("oops").status_code(), 500);
    assert_eq!(BotError::http_msg("oops").message(), "HTTP error: 500 - oops");
    assert_eq!(BotError::Io("pipe".to_string()).message(), "IO error: pipe");
    assert_eq!(BotError::Json("eof".to_string()).message(), "JSON error: eof");
    assert_eq!(BotError::Other("misc".to_string()).message(), "misc");
}

#[test]
fn test_remaining_variant_status_codes() {
    assert_eq!(BotError::config("x").status_code(), 500);
    assert_eq!(BotError::database("x").status_code(), 500);
    assert_eq!(BotError::auth("x").status_code(), 401);
    assert_eq!(BotError::conflict("x").status_code(), 409);
    assert_eq!(BotError::service_unavailable("x").status_code(), 503);
    assert_eq!(BotError::internal("x").status_code(), 500);
    assert_eq!(BotError::Io("x".to_string()).status_code(), 500);
    assert_eq!(BotError::Json("x".to_string()).status_code(), 400);
    assert_eq!(BotError::Other("x".to_string()).status_code(), 500);
    assert!(BotError::http(500, "x").is_retryable());
    assert!(!BotError::http(404, "x").is_retryable());
}
