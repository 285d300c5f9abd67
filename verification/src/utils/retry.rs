//! Retrying a remote call with exponential backoff.
//!
//! A failed attempt is classified by the text of its error. A permanent
//! failure ends the run at once. A transient failure is followed by a pause
//! and another attempt, until the attempts are used up. The pause starts at
//! the base delay and grows by the multiplier after each use, up to the
//! largest delay.
use vstd::prelude::*;
use crate::text::{
    contains_chars, decimal, has_substring, lowercase, push_decimal, to_chars, unicode_lowercase,
};

verus! {

/// The tuning of a retried call. Delays are in milliseconds; the
/// multiplier is in thousandths, so 2000 doubles the delay.
#[derive(Debug, Clone, Copy, PartialEq, Eq, Structural)]
pub struct RetryConfig {
    pub max_attempts: u32,
    pub base_delay_ms: u64,
    pub max_delay_ms: u64,
    pub backoff_permille: u32,
}

/// Three attempts, one second at first, doubling, thirty seconds at most.
pub open spec fn default_retry_config() -> RetryConfig {
    RetryConfig { max_attempts: 3, base_delay_ms: 1000, max_delay_ms: 30_000, backoff_permille: 2000 }
}

impl Default for RetryConfig {
    fn default() -> (config: Self)
        ensures
            config == default_retry_config(),
    {
        Self { max_attempts: 3, base_delay_ms: 1000, max_delay_ms: 30_000, backoff_permille: 2000 }
    }
}

/// The words that mark an error as transient, in lower case.
pub const TRANSIENT_MARKERS: [&'static str; 13] = [
    "timeout",
    "connection",
    "network",
    "temporary",
    "rate limit",
    "too many requests",
    "service unavailable",
    "bad gateway",
    "gateway timeout",
    "429",
    "502",
    "503",
    "504",
];

/// Whether one of the first `n` markers stands in `lowered`.
pub open spec fn has_marker_among(lowered: Seq<char>, n: int) -> bool {
    exists|i: int|
        0 <= i < n && i < TRANSIENT_MARKERS@.len() && has_substring(
            lowered,
            #[trigger] TRANSIENT_MARKERS@[i]@,
        )
}

/// Whether a lower-case error text holds a transient marker.
pub open spec fn has_transient_marker(lowered: Seq<char>) -> bool {
    has_marker_among(lowered, TRANSIENT_MARKERS@.len() as int)
}

/// Whether an error text marks a transient failure: lower-cased, it holds
/// one of the markers.
pub open spec fn is_transient_text(error: Seq<char>) -> bool {
    has_transient_marker(unicode_lowercase(error))
}

/// The delay that follows `delay_ms`: multiplied, rounded down, and held at
/// the largest delay.
pub open spec fn grown_delay(config: RetryConfig, delay_ms: u64) -> u64 {
    let grown = (delay_ms * config.backoff_permille) / 1000;
    if grown < config.max_delay_ms {
        grown as u64
    } else {
        config.max_delay_ms
    }
}

/// The pause after the failed attempt number `k + 1`.
pub open spec fn nth_delay(config: RetryConfig, k: nat) -> u64
    decreases k,
{
    if k == 0 {
        config.base_delay_ms
    } else {
        grown_delay(config, nth_delay(config, (k - 1) as nat))
    }
}

/// What follows a failed attempt.
#[derive(Debug, Clone, Copy, PartialEq, Eq, Structural)]
pub enum RetryStep {
    /// The failure is permanent: return it.
    Abort,
    /// The attempts are used up: return the aggregated failure.
    GiveUp,
    /// Pause for `sleep_ms`, then try again; the pause after that one is
    /// `next_delay_ms`.
    Wait { sleep_ms: u64, next_delay_ms: u64 },
}

/// What follows the failure of attempt number `attempt` (counted from 1),
/// when the current delay is `delay_ms`.
pub open spec fn step_after_failure(
    config: RetryConfig,
    attempt: u32,
    delay_ms: u64,
    transient: bool,
) -> RetryStep {
    if !transient {
        RetryStep::Abort
    } else if attempt >= config.max_attempts {
        RetryStep::GiveUp
    } else {
        RetryStep::Wait { sleep_ms: delay_ms, next_delay_ms: grown_delay(config, delay_ms) }
    }
}

/// Why a retried call returned no value.
#[derive(Debug, Clone)]
pub enum RetryError {
    /// An attempt failed for good; holds its error.
    Permanent(String),
    /// Every attempt failed; holds their number and the last error.
    Exhausted { attempts: u32, last_error: String },
}

impl RetryError {
    /// The text of the failure.
    pub open spec fn message_text(&self) -> Seq<char> {
        match self {
            RetryError::Permanent(error) => error@,
            RetryError::Exhausted { attempts, last_error } => "Failed after "@ + decimal(
                *attempts as nat,
            ) + " retry attempts: "@ + last_error@,
        }
    }

    /// The text of the failure.
    pub fn message(&self) -> (text: String)
        ensures
            text@ == self.message_text(),
    {
        match self {
            RetryError::Permanent(error) => error.clone(),
            RetryError::Exhausted { attempts, last_error } => {
                let mut text = String::from_str("Failed after ");
                push_decimal(&mut text, *attempts as u64);
                text.append(" retry attempts: ");
                text.append(last_error.as_str());
                text
            },
        }
    }
}

/// Whether a lower-case error text holds a transient marker.
pub fn lowercase_has_transient_marker(lowered: &str) -> (b: bool)
    ensures
        b == has_transient_marker(lowered@),
{
    let hay = to_chars(lowered);
    let mut i: usize = 0;
    while i < 13
        invariant
            i <= 13,
            TRANSIENT_MARKERS@.len() == 13,
            hay@ == lowered@,
            !has_marker_among(lowered@, i as int),
        decreases 13 - i,
    {
        let needle = to_chars(TRANSIENT_MARKERS[i]);
        if contains_chars(&hay, &needle) {
            assert(has_substring(lowered@, TRANSIENT_MARKERS@[i as int]@));
            return true;
        }
        i += 1;
    }
    false
}

/// Whether an error is transient, judged by its text: time-outs,
/// connection and network trouble, rate limits, and the statuses 429, 502,
/// 503 and 504 by number or by name. Every other failure is permanent.
pub fn is_transient_error(error: &str) -> (b: bool)
    ensures
        b == is_transient_text(error@),
{
    let lowered = lowercase(error);
    lowercase_has_transient_marker(lowered.as_str())
}

/// The delay that follows `delay_ms`.
pub fn next_delay(config: &RetryConfig, delay_ms: u64) -> (r: u64)
    ensures
        r == grown_delay(*config, delay_ms),
{
    let factor: u32 = config.backoff_permille;
    assert(delay_ms * factor <= 0xffff_ffff_ffff_ffff * 0xffff_ffff) by (nonlinear_arith)
        requires
            0 <= delay_ms <= 0xffff_ffff_ffff_ffff,
            0 <= factor <= 0xffff_ffff,
    ;
    let grown: u128 = (delay_ms as u128 * factor as u128) / 1000;
    if grown < config.max_delay_ms as u128 {
        grown as u64
    } else {
        config.max_delay_ms
    }
}

/// Decides what follows the failure of attempt number `attempt` with the
/// error text `error`, when the current delay is `delay_ms`.
pub fn next_step(config: &RetryConfig, attempt: u32, delay_ms: u64, error: &str) -> (step: RetryStep)
    ensures
        step == step_after_failure(*config, attempt, delay_ms, is_transient_text(error@)),
{
    if !is_transient_error(error) {
        RetryStep::Abort
    } else if attempt >= config.max_attempts {
        RetryStep::GiveUp
    } else {
        RetryStep::Wait { sleep_ms: delay_ms, next_delay_ms: next_delay(config, delay_ms) }
    }
}

/// Whether every outcome that `operation` can have is an error that is
/// not transient.
pub open spec fn always_permanent<T, F: Fn() -> Result<T, String>>(operation: F) -> bool {
    forall|outcome: Result<T, String>| #[trigger]
        operation.ensures((), outcome) ==> outcome is Err && !is_transient_text(outcome->Err_0@)
}

/// Whether every outcome that `operation` can have is a transient error.
pub open spec fn always_transient<T, F: Fn() -> Result<T, String>>(operation: F) -> bool {
    forall|outcome: Result<T, String>| #[trigger]
        operation.ensures((), outcome) ==> outcome is Err && is_transient_text(outcome->Err_0@)
}

/// Whether some outcome that `operation` can have is a transient error.
pub open spec fn can_fail_transiently<T, F: Fn() -> Result<T, String>>(operation: F) -> bool {
    exists|outcome: Result<T, String>| #[trigger]
        operation.ensures((), outcome) && outcome is Err && is_transient_text(outcome->Err_0@)
}

/// A retried call with its record: how many attempts were made and how
/// long each pause was.
pub struct RetryReport<T> {
    pub result: Result<T, RetryError>,
    pub attempts: u32,
    pub delays: Vec<u64>,
}

/// Runs `operation` until it succeeds, fails for good, or has failed
/// `max_attempts` times, pausing with `sleep` between attempts, and reports
/// what was done.
///
/// Whatever the operation returns: at least one and at most `max_attempts`
/// attempts are made; the pauses are those of the backoff schedule, one
/// after each attempt but the last; a value is one the operation returned;
/// a permanent failure holds an error of the operation that is not
/// transient; an exhausted run made every attempt and holds a transient
/// error of the operation. A second attempt is made only after a transient
/// error: an operation that can only fail for good is tried once, with no
/// pause. An operation that can only fail for the moment is tried
/// `max_attempts` times, with every pause of the schedule between.
pub fn retry_with_report<T, F: Fn() -> Result<T, String>, S: Fn(u64)>(
    config: &RetryConfig,
    operation: F,
    sleep: S,
) -> (report: RetryReport<T>)
    requires
        config.max_attempts >= 1,
        operation.requires(()),
        forall|ms: u64| sleep.requires((ms,)),
    ensures
        1 <= report.attempts <= config.max_attempts,
        report.delays@.len() == report.attempts - 1,
        forall|k: int|
            0 <= k < report.delays@.len() ==> report.delays@[k] == nth_delay(*config, k as nat),
        match report.result {
            Ok(value) => operation.ensures((), Ok(value)),
            Err(RetryError::Permanent(error)) => operation.ensures((), Err(error))
                && !is_transient_text(error@),
            Err(RetryError::Exhausted { attempts, last_error }) => {
                &&& attempts == config.max_attempts
                &&& report.attempts == config.max_attempts
                &&& operation.ensures((), Err(last_error))
                &&& is_transient_text(last_error@)
            },
        },
        report.attempts > 1 ==> can_fail_transiently(operation),
        always_permanent(operation) ==> {
            &&& report.result matches Err(RetryError::Permanent(_))
            &&& report.attempts == 1
            &&& report.delays@.len() == 0
        },
        always_transient(operation) ==> {
            &&& report.result matches Err(RetryError::Exhausted { .. })
            &&& report.attempts == config.max_attempts
            &&& report.delays@.len() == config.max_attempts - 1
        },
{
    let mut delay: u64 = config.base_delay_ms;
    let mut attempt: u32 = 1;
    let mut delays: Vec<u64> = Vec::new();
    loop
        invariant
            config.max_attempts >= 1,
            operation.requires(()),
            forall|ms: u64| sleep.requires((ms,)),
            1 <= attempt <= config.max_attempts,
            delays@.len() == attempt - 1,
            delay == nth_delay(*config, (attempt - 1) as nat),
            forall|k: int| 0 <= k < delays@.len() ==> delays@[k] == nth_delay(*config, k as nat),
            attempt > 1 ==> can_fail_transiently(operation),
        decreases config.max_attempts - attempt,
    {
        match operation() {
            Ok(value) => {
                return RetryReport { result: Ok(value), attempts: attempt, delays };
            },
            Err(error) => {
                match next_step(config, attempt, delay, error.as_str()) {
                    RetryStep::Abort => {
                        return RetryReport {
                            result: Err(RetryError::Permanent(error)),
                            attempts: attempt,
                            delays,
                        };
                    },
                    RetryStep::GiveUp => {
                        return RetryReport {
                            result: Err(
                                RetryError::Exhausted { attempts: attempt, last_error: error },
                            ),
                            attempts: attempt,
                            delays,
                        };
                    },
                    RetryStep::Wait { sleep_ms, next_delay_ms } => {
                        proof {
                            let witness: Result<T, String> = Err(error);
                            assert(operation.ensures((), witness) && witness is Err
                                && is_transient_text(witness->Err_0@));
                        }
                        sleep(sleep_ms);
                        delays.push(sleep_ms);
                        delay = next_delay_ms;
                        attempt = attempt + 1;
                    },
                }
            },
        }
    }
}

/// Runs `operation` until it succeeds, fails for good, or has failed
/// `max_attempts` times, pausing with `sleep` between attempts.
pub fn retry_with_exponential_backoff<T, F: Fn() -> Result<T, String>, S: Fn(u64)>(
    config: &RetryConfig,
    operation: F,
    sleep: S,
) -> (r: Result<T, RetryError>)
    requires
        config.max_attempts >= 1,
        operation.requires(()),
        forall|ms: u64| sleep.requires((ms,)),
    ensures
        match r {
            Ok(value) => operation.ensures((), Ok(value)),
            Err(RetryError::Permanent(error)) => operation.ensures((), Err(error))
                && !is_transient_text(error@),
            Err(RetryError::Exhausted { attempts, last_error }) => {
                &&& attempts == config.max_attempts
                &&& operation.ensures((), Err(last_error))
                &&& is_transient_text(last_error@)
            },
        },
        always_permanent(operation) ==> r matches Err(RetryError::Permanent(_)),
        always_transient(operation) ==> r matches Err(RetryError::Exhausted { .. }),
{
    retry_with_report(config, operation, sleep).result
}

} // verus!
