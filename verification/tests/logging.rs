use openchime::utils::logging::{
    format_record, log_auth_event, log_calendar_sync, log_database_operation,
    log_error_with_context, log_network_error, parse_log_level, LogLevel,
};

#[test]
fn test_log_level_parsing() {
    assert_eq!(LogLevel::Error, parse_log_level("error"));
}

#[test]
fn log_levels_are_read_whatever_their_case() {
    assert_eq!(parse_log_level("ERROR"), LogLevel::Error);
    assert_eq!(parse_log_level("Warn"), LogLevel::Warn);
    assert_eq!(parse_log_level("info"), LogLevel::Info);
    assert_eq!(parse_log_level("DeBuG"), LogLevel::Debug);
    assert_eq!(parse_log_level("trace"), LogLevel::Trace);
    assert_eq!(parse_log_level("verbose"), LogLevel::Info);
    assert_eq!(parse_log_level(""), LogLevel::Info);
}

#[test]
fn records_are_formatted_by_level() {
    assert_eq!(
        format_record(LogLevel::Info, "2024-01-01T00:00:00Z", "src/a.rs", 12, "openchime", "started"),
        "2024-01-01T00:00:00Z [INFO] [openchime]: started"
    );
    assert_eq!(
        format_record(LogLevel::Error, "T", "src/a.rs", 12, "openchime", "broke"),
        "T [ERROR] [src/a.rs:12] openchime: broke"
    );
    assert_eq!(format_record(LogLevel::Warn, "T", "f", 0, "t", "m"), "T [WARN] [f:0] t: m");
    assert_eq!(format_record(LogLevel::Debug, "T", "f", 7, "t", "m"), "T [DEBUG] [f:7] t: m");
    assert_eq!(
        format_record(LogLevel::Trace, "T", "f", 4294967295, "t", "m"),
        "T [TRACE] [f:4294967295] t: m"
    );
}

#[test]
fn error_lines_name_context_and_causes() {
    let causes = vec!["disk full".to_string(), "quota".to_string()];
    let lines = log_error_with_context("write failed", &causes, "sync");
    assert_eq!(
        lines,
        vec![
            "[sync] write failed".to_string(),
            "  Caused by: disk full".to_string(),
            "  Caused by: quota".to_string()
        ]
    );
    assert_eq!(log_error_with_context("e", &Vec::new(), "c"), vec!["[c] e".to_string()]);
}

#[test]
fn log_lines_have_exact_texts() {
    assert_eq!(log_network_error("fetch", "timed out"), "[Network] fetch failed: timed out");
    assert_eq!(
        log_calendar_sync("me@proton.me", 12, 340),
        "[Calendar] Synced 12 events for account 'me@proton.me' in 340ms"
    );
    assert_eq!(
        log_calendar_sync("a", 0, 18446744073709551615),
        "[Calendar] Synced 0 events for account 'a' in 18446744073709551615ms"
    );
    assert_eq!(
        log_database_operation("INSERT", "events", 5),
        "[Database] INSERT on table events took 5ms"
    );
    assert_eq!(
        log_auth_event("Proton ICS connection test", "me"),
        "[Auth] Proton ICS connection test for account 'me'"
    );
}
