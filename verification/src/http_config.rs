//! The tuning of HTTP clients: time-outs and retries. Times are in
//! milliseconds; the backoff multiplier is in thousandths.
use vstd::prelude::*;
use crate::utils::retry::RetryConfig;

verus! {

/// The string by which the client identifies itself.
pub const USER_AGENT: &'static str = "OpenChime/1.0";

/// The time-out of one feed request, in milliseconds.
pub const FEED_REQUEST_TIMEOUT_MS: u64 = 30_000;

/// The tuning of an HTTP client.
#[derive(Debug, Clone, Copy, PartialEq, Eq, Structural)]
pub struct HttpConfig {
    pub connect_timeout_ms: u64,
    pub read_timeout_ms: u64,
    /// The time-out of a whole request.
    pub timeout_ms: u64,
    pub max_retries: u32,
    pub base_retry_delay_ms: u64,
    pub max_retry_delay_ms: u64,
    pub backoff_permille: u32,
}

/// The tuning for general use.
pub open spec fn general_profile() -> HttpConfig {
    HttpConfig {
        connect_timeout_ms: 10_000,
        read_timeout_ms: 30_000,
        timeout_ms: 45_000,
        max_retries: 3,
        base_retry_delay_ms: 500,
        max_retry_delay_ms: 30_000,
        backoff_permille: 2000,
    }
}

/// The tuning for calendar services, which can be slow.
pub open spec fn calendar_profile() -> HttpConfig {
    HttpConfig {
        connect_timeout_ms: 15_000,
        read_timeout_ms: 60_000,
        timeout_ms: 90_000,
        max_retries: 3,
        base_retry_delay_ms: 1000,
        max_retry_delay_ms: 20_000,
        backoff_permille: 2000,
    }
}

/// The tuning for feeds, which can be large.
pub open spec fn feed_profile() -> HttpConfig {
    HttpConfig {
        connect_timeout_ms: 20_000,
        read_timeout_ms: 120_000,
        timeout_ms: 150_000,
        max_retries: 2,
        base_retry_delay_ms: 2000,
        max_retry_delay_ms: 30_000,
        backoff_permille: 1500,
    }
}

/// The tuning for authorisation, which fails fast.
pub open spec fn oauth_profile() -> HttpConfig {
    HttpConfig {
        connect_timeout_ms: 10_000,
        read_timeout_ms: 30_000,
        timeout_ms: 45_000,
        max_retries: 2,
        base_retry_delay_ms: 500,
        max_retry_delay_ms: 10_000,
        backoff_permille: 2000,
    }
}

impl Default for HttpConfig {
    fn default() -> (config: Self)
        ensures
            config == general_profile(),
    {
        Self {
            connect_timeout_ms: 10_000,
            read_timeout_ms: 30_000,
            timeout_ms: 45_000,
            max_retries: 3,
            base_retry_delay_ms: 500,
            max_retry_delay_ms: 30_000,
            backoff_permille: 2000,
        }
    }
}

impl HttpConfig {
    /// The retry tuning that this tuning stands for.
    pub open spec fn retry_profile(&self) -> RetryConfig {
        RetryConfig {
            max_attempts: self.max_retries,
            base_delay_ms: self.base_retry_delay_ms,
            max_delay_ms: self.max_retry_delay_ms,
            backoff_permille: self.backoff_permille,
        }
    }

    /// The tuning for general use.
    pub fn new() -> (config: Self)
        ensures
            config == general_profile(),
    {
        Self::default()
    }

    /// The tuning for calendar services.
    pub fn calendar_api() -> (config: Self)
        ensures
            config == calendar_profile(),
    {
        Self {
            connect_timeout_ms: 15_000,
            read_timeout_ms: 60_000,
            timeout_ms: 90_000,
            max_retries: 3,
            base_retry_delay_ms: 1000,
            max_retry_delay_ms: 20_000,
            backoff_permille: 2000,
        }
    }

    /// The tuning for feeds.
    pub fn ics_fetch() -> (config: Self)
        ensures
            config == feed_profile(),
    {
        Self {
            connect_timeout_ms: 20_000,
            read_timeout_ms: 120_000,
            timeout_ms: 150_000,
            max_retries: 2,
            base_retry_delay_ms: 2000,
            max_retry_delay_ms: 30_000,
            backoff_permille: 1500,
        }
    }

    /// The tuning for authorisation.
    pub fn oauth() -> (config: Self)
        ensures
            config == oauth_profile(),
    {
        Self {
            connect_timeout_ms: 10_000,
            read_timeout_ms: 30_000,
            timeout_ms: 45_000,
            max_retries: 2,
            base_retry_delay_ms: 500,
            max_retry_delay_ms: 10_000,
            backoff_permille: 2000,
        }
    }

    /// The retry tuning that this tuning stands for.
    pub fn to_retry_config(&self) -> (retry: RetryConfig)
        ensures
            retry == self.retry_profile(),
    {
        RetryConfig {
            max_attempts: self.max_retries,
            base_delay_ms: self.base_retry_delay_ms,
            max_delay_ms: self.max_retry_delay_ms,
            backoff_permille: self.backoff_permille,
        }
    }
}

} // verus!
