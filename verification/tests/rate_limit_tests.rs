use agent_core::chat::LlmError;
use agent_core::config::LlmProfile;
use agent_core::rate_limit::{backoff_delay_with, RateLimitHandler, RateLimitInfo};

fn create_test_profile() -> LlmProfile {
    LlmProfile {
        backend: "openai".to_string(),
        api_key: "test".to_string(),
        model: "gpt-3.5-turbo".to_string(),
        endpoint: "https://api.openai.com/v1/chat/completions".to_string(),
        temperature_permille: Some(700),
        max_tokens: Some(1000),
        context_window_size: Some(128000),
        summarize_threshold_permille: Some(700),
        rate_limit_tpm: None,
        max_retries: Some(3),
        retry_backoff_base: Some(2),
    }
}

#[test]
fn test_should_retry() {
    let profile = create_test_profile();
    let handler = RateLimitHandler::new(profile);

    assert!(handler.should_retry(0));
    assert!(handler.should_retry(1));
    assert!(handler.should_retry(2));
    assert!(!handler.should_retry(3));
    assert!(!handler.should_retry(4));
}

#[test]
fn test_calculate_backoff_delay() {
    let profile = create_test_profile();
    let handler = RateLimitHandler::new(profile);

    // delays grow exponentially, moved by up to a quarter either way
    let delay_1 = handler.calculate_backoff_delay(1);
    let delay_2 = handler.calculate_backoff_delay(2);
    let delay_3 = handler.calculate_backoff_delay(3);

    assert!(delay_1 >= 1 && delay_1 <= 3); // 2^1, zero jitter range
    assert!(delay_2 >= 3 && delay_2 <= 5); // 2^2 +/- 1
    assert!(delay_3 >= 6 && delay_3 <= 10); // 2^3 +/- 2
}

#[test]
fn test_backoff_delay_with() {
    assert_eq!(backoff_delay_with(2, 0, 12345), 1);
    assert_eq!(backoff_delay_with(2, 1, 0), 2); // range 0
    assert_eq!(backoff_delay_with(2, 3, 0), 6); // 8 - 2
    assert_eq!(backoff_delay_with(2, 3, 2), 8); // 8 + 2 - 2
    assert_eq!(backoff_delay_with(2, 3, 4), 10); // 8 + 4 - 2
    assert_eq!(backoff_delay_with(2, 3, 999), 10); // jitter clamped
    assert_eq!(backoff_delay_with(2, 6, 0), 48); // 64 - 16
    assert_eq!(backoff_delay_with(2, 6, 32), 60); // 80 capped at 60
    assert_eq!(backoff_delay_with(2, 10, 0), 60); // far past the cap
}

#[test]
fn test_parse_rate_limit_error() {
    let profile = create_test_profile();
    let handler = RateLimitHandler::new(profile);

    assert!(handler.parse_rate_limit_error("rate_limit_error"));
    assert!(handler.parse_rate_limit_error("rate limit exceeded"));
    assert!(handler.parse_rate_limit_error("quota_exceeded"));
    assert!(!handler.parse_rate_limit_error("invalid_api_key"));
}

#[test]
fn test_is_rate_limit_error() {
    assert!(RateLimitHandler::is_rate_limit_error(429));
    assert!(!RateLimitHandler::is_rate_limit_error(200));
    assert!(!RateLimitHandler::is_rate_limit_error(500));
}

#[test]
fn test_retry_after_integer() {
    assert_eq!(RateLimitHandler::retry_after_seconds("120", 1000), Some(120));
    assert_eq!(RateLimitHandler::retry_after_seconds("0", 1000), Some(0));
    assert_eq!(RateLimitHandler::retry_after_seconds("not a number", 1000), None);
}

#[test]
fn test_retry_after_http_date() {
    // 2015-05-15T15:34:21Z is 1431704061 seconds after the epoch
    let header = "Fri, 15 May 2015 15:34:21 GMT";
    assert_eq!(RateLimitHandler::retry_after_seconds(header, 1431704000), Some(61));
    // a date not in the future yields nothing
    assert_eq!(RateLimitHandler::retry_after_seconds(header, 1431704061), None);
    assert_eq!(RateLimitHandler::retry_after_seconds(header, 2000000000), None);
}

#[test]
fn test_extract_rate_limit_info() {
    let handler = RateLimitHandler::new(create_test_profile());
    let info = handler.extract_rate_limit_info(Some("120"), Some("10"), Some("999"), 2);
    assert_eq!(info.retry_after_seconds, Some(120));
    assert_eq!(info.remaining_requests, Some(10));
    assert_eq!(info.reset_time, Some(999));
    assert_eq!(info.provider, "openai");
    assert_eq!(info.attempt_count, 2);
}

#[test]
fn test_handle_rate_limit_error() {
    let handler = RateLimitHandler::new(create_test_profile());
    let info = RateLimitInfo {
        retry_after_seconds: Some(7),
        remaining_requests: None,
        reset_time: None,
        provider: "openai".to_string(),
        attempt_count: 0,
    };
    match handler.handle_rate_limit_error(info) {
        Ok(delay) => assert_eq!(delay, 7),
        Err(_) => panic!("retry should be allowed on the first attempt"),
    }

    let spent = RateLimitInfo {
        retry_after_seconds: None,
        remaining_requests: None,
        reset_time: None,
        provider: "openai".to_string(),
        attempt_count: 3,
    };
    match handler.handle_rate_limit_error(spent) {
        Ok(_) => panic!("retries are spent after max_retries attempts"),
        Err(LlmError::RateLimit(info)) => assert_eq!(info.attempt_count, 3),
        Err(_) => panic!("the typed rate-limit error is expected"),
    }
}

#[test]
fn test_provider_specific_wording() {
    let mut profile = create_test_profile();
    profile.backend = "gemini".to_string();
    let handler = RateLimitHandler::new(profile);
    assert!(handler.parse_rate_limit_error("RESOURCE_EXHAUSTED"));
    assert!(handler.parse_rate_limit_error("quota reached"));
    assert!(!handler.parse_rate_limit_error("rate_limit_error"));

    let mut other = create_test_profile();
    other.backend = "somethingelse".to_string();
    let fallback = RateLimitHandler::new(other);
    assert!(fallback.parse_rate_limit_error("got 429 back"));
    assert!(fallback.parse_rate_limit_error("too many requests"));
    assert!(!fallback.parse_rate_limit_error("quota_exceeded"));
}
