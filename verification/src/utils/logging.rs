//! The lines that are logged. Each function returns its line; writing it
//! out is left to the caller.
use vstd::prelude::*;
use crate::text::{decimal, lowercase, push_decimal, str_eq, unicode_lowercase};

verus! {

/// How much is logged.
#[derive(Debug, Clone, Copy, PartialEq, Eq, Structural)]
pub enum LogLevel {
    Error,
    Warn,
    Info,
    Debug,
    Trace,
}

/// The level that a lower-case name stands for; `Info` for any other text.
pub open spec fn level_named(lowered: Seq<char>) -> LogLevel {
    if lowered == "error"@ {
        LogLevel::Error
    } else if lowered == "warn"@ {
        LogLevel::Warn
    } else if lowered == "info"@ {
        LogLevel::Info
    } else if lowered == "debug"@ {
        LogLevel::Debug
    } else if lowered == "trace"@ {
        LogLevel::Trace
    } else {
        LogLevel::Info
    }
}

/// The level that a lower-case name stands for.
pub fn level_of_lowercase(lowered: &str) -> (level: LogLevel)
    ensures
        level == level_named(lowered@),
{
    if str_eq(lowered, "error") {
        LogLevel::Error
    } else if str_eq(lowered, "warn") {
        LogLevel::Warn
    } else if str_eq(lowered, "info") {
        LogLevel::Info
    } else if str_eq(lowered, "debug") {
        LogLevel::Debug
    } else if str_eq(lowered, "trace") {
        LogLevel::Trace
    } else {
        LogLevel::Info
    }
}

/// The level that a name stands for, whatever its case; `Info` for a text
/// that names no level.
pub fn parse_log_level(name: &str) -> (level: LogLevel)
    ensures
        level == level_named(unicode_lowercase(name@)),
{
    let lowered = lowercase(name);
    level_of_lowercase(lowered.as_str())
}

/// The label of a level in a log line.
pub open spec fn level_label(level: LogLevel) -> Seq<char> {
    match level {
        LogLevel::Error => "ERROR"@,
        LogLevel::Warn => "WARN"@,
        LogLevel::Info => "INFO"@,
        LogLevel::Debug => "DEBUG"@,
        LogLevel::Trace => "TRACE"@,
    }
}

/// A log line: the time, the level, where the record was made, and the
/// message. A line at level `Info` names only the target; every other line
/// names the file and line as well.
pub open spec fn record_line(
    level: LogLevel,
    timestamp: Seq<char>,
    file: Seq<char>,
    line: u32,
    target: Seq<char>,
    message: Seq<char>,
) -> Seq<char> {
    if level == LogLevel::Info {
        timestamp + " [INFO] ["@ + target + "]: "@ + message
    } else {
        timestamp + " ["@ + level_label(level) + "] ["@ + file + ":"@ + decimal(line as nat)
            + "] "@ + target + ": "@ + message
    }
}

/// Formats a log record as one line.
pub fn format_record(level: LogLevel, timestamp: &str, file: &str, line: u32, target: &str, message: &str) -> (text:
    String)
    ensures
        text@ == record_line(level, timestamp@, file@, line, target@, message@),
{
    let mut text = String::from_str(timestamp);
    match level {
        LogLevel::Info => {
            text.append(" [INFO] [");
            text.append(target);
            text.append("]: ");
            text.append(message);
        },
        _ => {
            text.append(" [");
            text.append(
                match level {
                    LogLevel::Error => "ERROR",
                    LogLevel::Warn => "WARN",
                    LogLevel::Info => "INFO",
                    LogLevel::Debug => "DEBUG",
                    LogLevel::Trace => "TRACE",
                },
            );
            text.append("] [");
            text.append(file);
            text.append(":");
            push_decimal(&mut text, line as u64);
            text.append("] ");
            text.append(target);
            text.append(": ");
            text.append(message);
        },
    }
    text
}

/// The lines for an error in its context: the error, then one line for each
/// of its causes, outermost first.
pub open spec fn error_lines(error: Seq<char>, causes: Seq<Seq<char>>, context: Seq<char>) -> Seq<
    Seq<char>,
> {
    seq!["["@ + context + "] "@ + error] + causes.map_values(
        |cause: Seq<char>| "  Caused by: "@ + cause,
    )
}

/// The texts of a list of strings.
pub open spec fn line_texts(lines: Seq<String>) -> Seq<Seq<char>> {
    lines.map_values(|line: String| line@)
}

/// The lines for an error in its context, with the chain of its causes.
pub fn log_error_with_context(error: &str, causes: &Vec<String>, context: &str) -> (lines: Vec<String>)
    ensures
        line_texts(lines@) == error_lines(error@, line_texts(causes@), context@),
{
    let mut first = String::from_str("[");
    first.append(context);
    first.append("] ");
    first.append(error);
    let mut lines: Vec<String> = Vec::new();
    lines.push(first);
    let mut i: usize = 0;
    while i < causes.len()
        invariant
            i <= causes.len(),
            lines@.len() == i + 1,
            lines@[0]@ == "["@ + context@ + "] "@ + error@,
            forall|k: int| 0 <= k < i ==> (#[trigger] lines@[k + 1])@ == "  Caused by: "@ + causes@[k]@,
        decreases causes.len() - i,
    {
        let mut line = String::from_str("  Caused by: ");
        line.append(causes[i].as_str());
        lines.push(line);
        i += 1;
    }
    proof {
        let expected = error_lines(error@, line_texts(causes@), context@);
        assert(line_texts(lines@).len() == expected.len());
        assert forall|k: int| 0 <= k < expected.len() implies line_texts(lines@)[k] == expected[k] by {
            if k > 0 {
                assert(lines@[(k - 1) + 1]@ == "  Caused by: "@ + causes@[k - 1]@);
            }
        }
        assert(line_texts(lines@) =~= expected);
    }
    lines
}

/// The line for a failed network operation.
pub fn log_network_error(operation: &str, error: &str) -> (line: String)
    ensures
        line@ == "[Network] "@ + operation@ + " failed: "@ + error@,
{
    let mut line = String::from_str("[Network] ");
    line.append(operation);
    line.append(" failed: ");
    line.append(error);
    line
}

/// The line for a finished sync of an account.
pub fn log_calendar_sync(account_name: &str, events_count: usize, duration_ms: u64) -> (line: String)
    ensures
        line@ == "[Calendar] Synced "@ + decimal(events_count as nat) + " events for account '"@
            + account_name@ + "' in "@ + decimal(duration_ms as nat) + "ms"@,
{
    let mut line = String::from_str("[Calendar] Synced ");
    push_decimal(&mut line, events_count as u64);
    line.append(" events for account '");
    line.append(account_name);
    line.append("' in ");
    push_decimal(&mut line, duration_ms);
    line.append("ms");
    line
}

/// The line for a database operation.
pub fn log_database_operation(operation: &str, table: &str, duration_ms: u64) -> (line: String)
    ensures
        line@ == "[Database] "@ + operation@ + " on table "@ + table@ + " took "@ + decimal(
            duration_ms as nat,
        ) + "ms"@,
{
    let mut line = String::from_str("[Database] ");
    line.append(operation);
    line.append(" on table ");
    line.append(table);
    line.append(" took ");
    push_decimal(&mut line, duration_ms);
    line.append("ms");
    line
}

/// The line for an event of an account's authentication.
pub fn log_auth_event(event: &str, account_name: &str) -> (line: String)
    ensures
        line@ == "[Auth] "@ + event@ + " for account '"@ + account_name@ + "'"@,
{
    let mut line = String::from_str("[Auth] ");
    line.append(event);
    line.append(" for account '");
    line.append(account_name);
    line.append("'");
    line
}

} // verus!
