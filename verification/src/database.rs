//! The stored state that the engine reads and writes: the table of events
//! and the flat table of preferences.
use vstd::prelude::*;
use crate::text::str_eq;

pub mod events;
pub mod settings;

verus! {

/// The most connections that the pool of a store holds.
pub const MAX_CONNECTIONS: u32 = 5;

/// The fewest connections that the pool keeps open.
pub const MIN_CONNECTIONS: u32 = 1;

/// Milliseconds that a statement waits for a lock.
pub const BUSY_TIMEOUT_MS: u64 = 10_000;

/// Milliseconds that a caller waits for a connection.
pub const ACQUIRE_TIMEOUT_MS: u64 = 30_000;

/// How often a connection to the store is attempted.
pub const CONNECT_ATTEMPTS: u32 = 3;

/// What the pool of connections reports.
#[derive(Debug, Clone, Copy, PartialEq, Eq, Structural)]
pub struct PoolStats {
    /// Connections that are open.
    pub size: u32,
    /// Open connections that are not in use.
    pub idle: usize,
    pub is_closed: bool,
}

/// Two to the power `n`.
pub open spec fn power_of_two(n: nat) -> nat
    decreases n,
{
    if n == 0 {
        1
    } else {
        2 * power_of_two((n - 1) as nat)
    }
}

/// The pause, in milliseconds, after the failed connection attempt number
/// `attempt` (counted from 1): 100, 200, 400 and so on.
pub open spec fn connect_backoff(attempt: u32) -> nat {
    100 * power_of_two((attempt - 1) as nat)
}

/// The pause, in milliseconds, after the failed connection attempt number
/// `attempt`.
pub fn connect_backoff_ms(attempt: u32) -> (ms: u64)
    requires
        1 <= attempt <= 58,
    ensures
        ms == connect_backoff(attempt),
{
    let mut ms: u64 = 100;
    let mut k: u32 = 1;
    proof {
        lemma_power_of_two_57();
        lemma_power_of_two_grows(0, 57);
    }
    while k < attempt
        invariant
            1 <= k <= attempt <= 58,
            ms == 100 * power_of_two((k - 1) as nat),
            power_of_two((k - 1) as nat) <= 0x200_0000_0000_0000,
        decreases attempt - k,
    {
        proof {
            lemma_power_of_two_57();
            lemma_power_of_two_grows(k as nat, 57);
        }
        ms = ms * 2;
        k = k + 1;
    }
    ms
}

/// Powers of two grow with their exponent.
pub proof fn lemma_power_of_two_grows(a: nat, b: nat)
    requires
        a <= b,
    ensures
        power_of_two(a) <= power_of_two(b),
    decreases b,
{
    if a < b {
        lemma_power_of_two_grows(a, (b - 1) as nat);
    }
}

/// Two to the power 57.
pub proof fn lemma_power_of_two_57()
    ensures
        power_of_two(57) == 0x200_0000_0000_0000,
{
    reveal_with_fuel(power_of_two, 58);
}

/// What follows a failed attempt to connect.
#[derive(Debug, Clone, Copy, PartialEq, Eq, Structural)]
pub enum ConnectStep {
    /// Pause for the milliseconds given, then try again.
    Wait(u64),
    /// Every attempt failed.
    GiveUp,
}

/// Decides what follows the failed connection attempt number `attempt` of
/// `max_retries`.
pub fn after_failed_connect(attempt: u32, max_retries: u32) -> (step: ConnectStep)
    requires
        1 <= attempt <= 58,
    ensures
        step == if attempt < max_retries {
            ConnectStep::Wait(connect_backoff(attempt) as u64)
        } else {
            ConnectStep::GiveUp
        },
{
    if attempt < max_retries {
        ConnectStep::Wait(connect_backoff_ms(attempt))
    } else {
        ConnectStep::GiveUp
    }
}

/// The columns that later versions added to the table of events, each with
/// its definition, in the order in which they were added.
pub const ADDED_COLUMNS: [(&'static str, &'static str); 6] = [
    ("video_platform", "TEXT"),
    ("snooze_count", "INTEGER DEFAULT 0"),
    ("has_alerted", "BOOLEAN DEFAULT 0"),
    ("last_alert_threshold", "INTEGER"),
    ("is_dismissed", "BOOLEAN DEFAULT 0"),
    ("last_snoozed_at", "DATETIME"),
];

/// Whether a table with the columns `existing` has a column named `name`.
pub open spec fn has_column(existing: Seq<Seq<char>>, name: Seq<char>) -> bool {
    exists|i: int| 0 <= i < existing.len() && #[trigger] existing[i] == name
}

/// The positions of those of the first `n` added columns that a table with
/// the columns `existing` lacks, in order.
pub open spec fn lacking_among(existing: Seq<Seq<char>>, n: int) -> Seq<usize>
    decreases n,
{
    if n <= 0 || n > ADDED_COLUMNS@.len() {
        Seq::empty()
    } else if has_column(existing, ADDED_COLUMNS@[n - 1].0@) {
        lacking_among(existing, n - 1)
    } else {
        lacking_among(existing, n - 1).push((n - 1) as usize)
    }
}

/// The names of a list of columns.
pub open spec fn column_names(columns: Seq<String>) -> Seq<Seq<char>> {
    columns.map_values(|column: String| column@)
}

/// Whether a table with the columns `existing` has a column named `name`.
pub fn table_has_column(existing: &Vec<String>, name: &str) -> (b: bool)
    ensures
        b == has_column(column_names(existing@), name@),
{
    let mut i: usize = 0;
    while i < existing.len()
        invariant
            i <= existing.len(),
            forall|k: int| 0 <= k < i ==> column_names(existing@)[k] != name@,
        decreases existing.len() - i,
    {
        if str_eq(existing[i].as_str(), name) {
            assert(column_names(existing@)[i as int] == name@);
            return true;
        }
        i += 1;
    }
    false
}

/// The positions in `ADDED_COLUMNS` of the columns that a table of events
/// with the columns `existing` still lacks, in the order in which they are
/// to be added.
pub fn columns_to_add(existing: &Vec<String>) -> (lacking: Vec<usize>)
    ensures
        lacking@ == lacking_among(column_names(existing@), ADDED_COLUMNS@.len() as int),
        forall|k: int| 0 <= k < lacking@.len() ==> lacking@[k] < 6,
{
    let mut lacking: Vec<usize> = Vec::new();
    let mut i: usize = 0;
    while i < 6
        invariant
            i <= 6,
            ADDED_COLUMNS@.len() == 6,
            lacking@ == lacking_among(column_names(existing@), i as int),
            forall|k: int| 0 <= k < lacking@.len() ==> lacking@[k] < 6,
        decreases 6 - i,
    {
        let (name, _definition) = ADDED_COLUMNS[i];
        if !table_has_column(existing, name) {
            lacking.push(i);
        }
        i += 1;
    }
    lacking
}

} // verus!
