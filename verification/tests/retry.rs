use openchime::utils::retry::{
    is_transient_error, lowercase_has_transient_marker, next_delay, next_step,
    retry_with_exponential_backoff, retry_with_report, RetryConfig, RetryError, RetryStep,
};
use std::cell::{Cell, RefCell};

#[test]
fn test_retry_success_on_second_attempt() {
    let attempt_count = Cell::new(0u32);
    let config = RetryConfig::default();

    let result = retry_with_exponential_backoff(
        &config,
        || {
            let count = attempt_count.get();
            attempt_count.set(count + 1);
            if count == 0 {
                Err("Temporary failure".to_string())
            } else {
                Ok("success")
            }
        },
        |_ms: u64| {},
    );

    assert!(result.is_ok());
    assert_eq!(result.unwrap(), "success");
    assert_eq!(attempt_count.get(), 2);
}

#[test]
fn test_retry_non_transient_error() {
    let attempt_count = Cell::new(0u32);
    let config = RetryConfig::default();

    let result: Result<&str, _> = retry_with_exponential_backoff(
        &config,
        || {
            attempt_count.set(attempt_count.get() + 1);
            Err("Authentication failed".to_string())
        },
        |_ms: u64| {},
    );

    assert!(result.is_err());
    assert_eq!(attempt_count.get(), 1);
    assert!(matches!(result, Err(RetryError::Permanent(_))));
}

#[test]
fn transient_errors_are_retried_up_to_max_attempts() {
    let attempt_count = Cell::new(0u32);
    let slept = RefCell::new(Vec::new());
    let config = RetryConfig { max_attempts: 4, base_delay_ms: 100, max_delay_ms: 350, backoff_permille: 2000 };
    let report = retry_with_report(
        &config,
        || {
            attempt_count.set(attempt_count.get() + 1);
            Err::<(), String>("Connection timed out".to_string())
        },
        |ms: u64| slept.borrow_mut().push(ms),
    );
    assert_eq!(attempt_count.get(), 4);
    assert_eq!(report.attempts, 4);
    assert_eq!(report.delays, vec![100, 200, 350]);
    assert_eq!(slept.borrow().clone(), vec![100, 200, 350]);
    match report.result {
        Err(RetryError::Exhausted { attempts, last_error }) => {
            assert_eq!(attempts, 4);
            assert_eq!(last_error, "Connection timed out");
        }
        other => panic!("unexpected result {:?}", other),
    }
}

#[test]
fn retry_errors_have_their_messages() {
    assert_eq!(RetryError::Permanent("Authentication failed".to_string()).message(), "Authentication failed");
    assert_eq!(
        RetryError::Exhausted { attempts: 3, last_error: "Connection timed out".to_string() }.message(),
        "Failed after 3 retry attempts: Connection timed out"
    );
}

#[test]
fn a_single_attempt_is_never_followed_by_a_pause() {
    let config = RetryConfig { max_attempts: 1, base_delay_ms: 100, max_delay_ms: 350, backoff_permille: 2000 };
    let report = retry_with_report(&config, || Err::<(), String>("timeout".to_string()), |_ms: u64| {
        panic!("no pause is due")
    });
    assert_eq!(report.attempts, 1);
    assert!(report.delays.is_empty());
    assert!(matches!(report.result, Err(RetryError::Exhausted { attempts: 1, .. })));
}

#[test]
fn errors_are_classified_by_their_text() {
    for text in [
        "Connection timed out",
        "request TIMEOUT",
        "Network is unreachable",
        "Temporary failure in name resolution",
        "Rate limit exceeded",
        "Too Many Requests",
        "Service Unavailable",
        "Bad Gateway",
        "Gateway Timeout",
        "HTTP 429",
        "HTTP 502",
        "HTTP 503",
        "HTTP 504: ",
    ] {
        assert!(is_transient_error(text), "{} is transient", text);
    }
    for text in [
        "Authentication failed",
        "HTTP 404 Not Found: ",
        "",
        "HTTP 500 Internal Server Error: ",
        "time out",
    ] {
        assert!(!is_transient_error(text), "{} is permanent", text);
    }
    assert!(lowercase_has_transient_marker("a timeout"));
    assert!(!lowercase_has_transient_marker("A TIMEOUT"));
    assert!(!is_transient_error(
        "Invalid ICS URL: The server returned HTML instead of a calendar file. Please ensure you are using the 'Secret address in iCal format' from your calendar settings, not the web browser URL."
    ));
}

#[test]
fn delays_grow_by_the_multiplier_up_to_the_maximum() {
    let config = RetryConfig { max_attempts: 3, base_delay_ms: 1000, max_delay_ms: 30_000, backoff_permille: 2000 };
    assert_eq!(next_delay(&config, 1000), 2000);
    assert_eq!(next_delay(&config, 15_000), 30_000);
    assert_eq!(next_delay(&config, 20_000), 30_000);
    assert_eq!(next_delay(&config, 0), 0);
    let slow = RetryConfig { max_attempts: 3, base_delay_ms: 2000, max_delay_ms: 30_000, backoff_permille: 1500 };
    assert_eq!(next_delay(&slow, 2000), 3000);
    assert_eq!(next_delay(&slow, 3), 4);
    assert_eq!(next_delay(&slow, 1), 1);
    let huge = RetryConfig { max_attempts: 3, base_delay_ms: 1, max_delay_ms: u64::MAX, backoff_permille: u32::MAX };
    assert_eq!(next_delay(&huge, u64::MAX), u64::MAX);
    assert_eq!(
        RetryConfig::default(),
        RetryConfig { max_attempts: 3, base_delay_ms: 1000, max_delay_ms: 30_000, backoff_permille: 2000 }
    );
}

#[test]
fn steps_follow_from_attempt_and_error() {
    let config = RetryConfig::default();
    assert_eq!(next_step(&config, 1, 1000, "Authentication failed"), RetryStep::Abort);
    assert_eq!(next_step(&config, 3, 1000, "Authentication failed"), RetryStep::Abort);
    assert_eq!(
        next_step(&config, 1, 1000, "timeout"),
        RetryStep::Wait { sleep_ms: 1000, next_delay_ms: 2000 }
    );
    assert_eq!(
        next_step(&config, 2, 2000, "timeout"),
        RetryStep::Wait { sleep_ms: 2000, next_delay_ms: 4000 }
    );
    assert_eq!(next_step(&config, 3, 4000, "timeout"), RetryStep::GiveUp);
    assert_eq!(next_step(&config, 4, 4000, "timeout"), RetryStep::GiveUp);
}

#[test]
fn a_permanent_error_is_tried_once_without_a_pause() {
    let attempt_count = Cell::new(0u32);
    let slept = RefCell::new(Vec::new());
    let config = RetryConfig { max_attempts: 4, base_delay_ms: 100, max_delay_ms: 250, backoff_permille: 2000 };
    let report = retry_with_report(
        &config,
        || {
            attempt_count.set(attempt_count.get() + 1);
            Err::<(), String>("Authentication failed".to_string())
        },
        |ms: u64| slept.borrow_mut().push(ms),
    );
    assert_eq!(attempt_count.get(), 1);
    assert_eq!(report.attempts, 1);
    assert!(report.delays.is_empty());
    assert!(slept.borrow().is_empty());
    match report.result {
        Err(RetryError::Permanent(text)) => assert_eq!(text, "Authentication failed"),
        other => panic!("unexpected result {:?}", other),
    }
}

#[test]
fn pauses_double_and_stop_at_the_maximum() {
    let slept = RefCell::new(Vec::new());
    let config = RetryConfig { max_attempts: 4, base_delay_ms: 100, max_delay_ms: 250, backoff_permille: 2000 };
    let report = retry_with_report(
        &config,
        || Err::<(), String>("connection reset".to_string()),
        |ms: u64| slept.borrow_mut().push(ms),
    );
    assert_eq!(report.attempts, 4);
    assert_eq!(report.delays, vec![100, 200, 250]);
    assert_eq!(slept.borrow().clone(), vec![100, 200, 250]);
    assert!(matches!(report.result, Err(RetryError::Exhausted { attempts: 4, .. })));
}
