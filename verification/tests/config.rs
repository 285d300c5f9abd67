use openchime::config::validate_config;
use openchime::error::AppError;
use openchime::http_config::{HttpConfig, FEED_REQUEST_TIMEOUT_MS, USER_AGENT};
use openchime::utils::retry::RetryConfig;

#[test]
fn test_validation_passes() {
    let result = validate_config();
    assert!(result.is_ok());
}

#[test]
fn http_profiles_have_their_values() {
    let general = HttpConfig::new();
    assert_eq!(general, HttpConfig::default());
    assert_eq!(general.connect_timeout_ms, 10_000);
    assert_eq!(general.read_timeout_ms, 30_000);
    assert_eq!(general.timeout_ms, 45_000);
    assert_eq!(general.max_retries, 3);
    assert_eq!(general.base_retry_delay_ms, 500);
    assert_eq!(general.max_retry_delay_ms, 30_000);
    assert_eq!(general.backoff_permille, 2000);

    let calendar = HttpConfig::calendar_api();
    assert_eq!(
        (calendar.connect_timeout_ms, calendar.read_timeout_ms, calendar.timeout_ms),
        (15_000, 60_000, 90_000)
    );
    assert_eq!(
        (calendar.max_retries, calendar.base_retry_delay_ms, calendar.max_retry_delay_ms),
        (3, 1000, 20_000)
    );

    let feed = HttpConfig::ics_fetch();
    assert_eq!((feed.connect_timeout_ms, feed.read_timeout_ms, feed.timeout_ms), (20_000, 120_000, 150_000));
    assert_eq!((feed.max_retries, feed.base_retry_delay_ms, feed.max_retry_delay_ms), (2, 2000, 30_000));
    assert_eq!(feed.backoff_permille, 1500);

    let oauth = HttpConfig::oauth();
    assert_eq!((oauth.max_retries, oauth.base_retry_delay_ms, oauth.max_retry_delay_ms), (2, 500, 10_000));
    assert_eq!(USER_AGENT, "OpenChime/1.0");
    assert_eq!(FEED_REQUEST_TIMEOUT_MS, 30_000);
}

#[test]
fn http_config_gives_its_retry_config() {
    assert_eq!(
        HttpConfig::ics_fetch().to_retry_config(),
        RetryConfig { max_attempts: 2, base_delay_ms: 2000, max_delay_ms: 30_000, backoff_permille: 1500 }
    );
}

#[test]
fn app_errors_have_their_messages() {
    assert_eq!(AppError::Database("locked".to_string()).message(), "Database error: locked");
    assert_eq!(AppError::auth("bad token").message(), "Authentication error: bad token");
    assert_eq!(AppError::Network("reset".to_string()).message(), "Network error: reset");
    assert_eq!(AppError::Anyhow("oops".to_string()).message(), "Error: oops");
    assert_eq!(AppError::calendar("no feed").message(), "Calendar error: no feed");
    assert_eq!(AppError::audio("no device").message(), "Audio error: no device");
    assert_eq!(AppError::invalid_input("x").message(), "Invalid input: x");
    assert_eq!(AppError::config("y").message(), "Configuration error: y");
    assert_eq!(AppError::operation_failed("z").message(), "Operation failed: z");
    assert_eq!(AppError::not_found("event 4").message(), "Not found: event 4");
    assert_eq!(AppError::permission_denied("p").message(), "Permission denied: p");
}

#[test]
fn unsafe_errors_are_shown_without_their_text() {
    let database = AppError::Database("row of alice@example.com".to_string());
    assert!(!database.is_pii_safe());
    assert_eq!(database.to_safe_string(), "Database operation failed");
    let network = AppError::Network("https://secret".to_string());
    assert!(!network.is_pii_safe());
    assert_eq!(network.to_safe_string(), "Network request failed");
    let other = AppError::Anyhow("anything".to_string());
    assert!(!other.is_pii_safe());
    assert_eq!(other.to_safe_string(), "Operation failed");
    let safe = AppError::not_found("event 4");
    assert!(safe.is_pii_safe());
    assert_eq!(safe.to_safe_string(), "Not found: event 4");
    assert!(AppError::auth("a").is_pii_safe());
    assert!(AppError::calendar("a").is_pii_safe());
    assert!(AppError::audio("a").is_pii_safe());
    assert!(AppError::invalid_input("a").is_pii_safe());
    assert!(AppError::config("a").is_pii_safe());
    assert!(AppError::operation_failed("a").is_pii_safe());
    assert!(AppError::permission_denied("a").is_pii_safe());
}
