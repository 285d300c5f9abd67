//! The outcome of synchronising one account.
use vstd::prelude::*;
use crate::clock::utc_now;
use crate::models::event::opt_text;

verus! {

/// What one synchronisation of one account did.
#[derive(Debug, Clone)]
pub struct SyncResult {
    pub account_id: i64,
    pub success: bool,
    pub events_added: usize,
    pub events_updated: usize,
    pub error_message: Option<String>,
    /// When the result was recorded.
    pub sync_time: i64,
}

impl SyncResult {
    /// Whether this is the record of a successful sync with the given counts.
    pub open spec fn is_success_with(&self, account_id: i64, added: usize, updated: usize) -> bool {
        &&& self.account_id == account_id
        &&& self.success
        &&& self.events_added == added
        &&& self.events_updated == updated
        &&& self.error_message is None
    }

    /// Whether this is the record of a failed sync with the given message.
    pub open spec fn is_failure_with(&self, account_id: i64, error: Seq<char>) -> bool {
        &&& self.account_id == account_id
        &&& !self.success
        &&& self.events_added == 0
        &&& self.events_updated == 0
        &&& opt_text(self.error_message) == Some(error)
    }

    /// A successful sync that changed nothing, recorded at `now`.
    pub fn success_at(account_id: i64, now: i64) -> (r: Self)
        ensures
            r.is_success_with(account_id, 0, 0),
            r.sync_time == now,
    {
        Self::with_counts_at(account_id, 0, 0, now)
    }

    /// A successful sync that changed nothing, recorded now.
    pub fn success(account_id: i64) -> (r: Self)
        ensures
            r.is_success_with(account_id, 0, 0),
    {
        Self::success_at(account_id, utc_now())
    }

    /// A successful sync with its counts, recorded at `now`.
    pub fn with_counts_at(account_id: i64, added: usize, updated: usize, now: i64) -> (r: Self)
        ensures
            r.is_success_with(account_id, added, updated),
            r.sync_time == now,
    {
        Self {
            account_id,
            success: true,
            events_added: added,
            events_updated: updated,
            error_message: None,
            sync_time: now,
        }
    }

    /// A successful sync with its counts, recorded now.
    pub fn with_counts(account_id: i64, added: usize, updated: usize) -> (r: Self)
        ensures
            r.is_success_with(account_id, added, updated),
    {
        Self::with_counts_at(account_id, added, updated, utc_now())
    }

    /// A failed sync with its message, recorded at `now`.
    pub fn with_error_at(account_id: i64, error: String, now: i64) -> (r: Self)
        ensures
            r.is_failure_with(account_id, error@),
            r.sync_time == now,
    {
        Self {
            account_id,
            success: false,
            events_added: 0,
            events_updated: 0,
            error_message: Some(error),
            sync_time: now,
        }
    }

    /// A failed sync with its message, recorded now.
    pub fn with_error(account_id: i64, error: String) -> (r: Self)
        ensures
            r.is_failure_with(account_id, error@),
    {
        Self::with_error_at(account_id, error, utc_now())
    }
}

} // verus!
