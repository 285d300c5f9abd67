//! Feeds: fetching, validation, normalisation and reconciliation.
use vstd::prelude::*;
use crate::calendar::common::{FetchError, HttpAttempt};
use crate::calendar::ics::{events_of, ics_document};
use crate::calendar::normalize::{
    are_candidates_of, is_stable_entry, is_stable_feed, lemma_stable_events_have_one_reading,
    normalize, stable_candidates,
};
use crate::calendar::reconcile::{
    keeps_rows, lemma_second_run_changes_nothing, reconciled, same_content, try_reconcile, Tally,
};
use crate::database::events::{rows_wf, EventStore, MAX_ROWS};
use crate::models::account::{provider_of_tag, Account, CalendarProvider};
use crate::models::event::{event_views, CalendarEvent, CalendarEventView};
use crate::models::sync::SyncResult;
use crate::utils::circuit_breaker::{
    bumped, failed_at_reading, lemma_breaker_after_use, BreakerModel, CircuitBreakerRegistry,
    RegistryModel,
};

pub mod common;
pub mod google;
pub mod ics;
pub mod normalize;
pub mod proton;
pub mod reconcile;

verus! {

/// Why an account could not be synchronised.
#[derive(Debug, Clone)]
pub enum SyncError {
    /// The account's provider tag names no provider; holds the message.
    UnknownProvider(String),
    /// The feed could not be fetched.
    Fetch(FetchError),
    /// What was fetched is no calendar document; holds the message.
    Parse(String),
    /// The table of events has no room for the feed's events.
    StoreFull,
}

impl SyncError {
    /// The text of the failure.
    pub open spec fn message_text(&self) -> Seq<char> {
        match self {
            SyncError::UnknownProvider(message) => message@,
            SyncError::Fetch(e) => e.message_text(),
            SyncError::Parse(message) => message@,
            SyncError::StoreFull => "Event store is full"@,
        }
    }

    /// The text of the failure.
    pub fn message(&self) -> (text: String)
        ensures
            text@ == self.message_text(),
    {
        match self {
            SyncError::UnknownProvider(message) => message.clone(),
            SyncError::Fetch(e) => e.message(),
            SyncError::Parse(message) => message.clone(),
            SyncError::StoreFull => String::from_str("Event store is full"),
        }
    }
}

/// The account under which events are stored: the account's row identity,
/// or 0 for an account that was never stored.
pub open spec fn account_key(id: Option<i64>) -> i64 {
    match id {
        Some(id) => id,
        None => 0,
    }
}

/// The counts that a sync reports, or its failure.
pub open spec fn counts_of(r: Result<SyncResult, SyncError>) -> Result<(usize, usize), SyncError> {
    match r {
        Ok(result) => Ok((result.events_added, result.events_updated)),
        Err(e) => Err(e),
    }
}

/// Whether a result, where it is a success, is the record of a successful
/// sync of `account_id` at `now`.
pub open spec fn is_report(r: Result<SyncResult, SyncError>, account_id: i64, now: i64) -> bool {
    r matches Ok(result) ==> {
        &&& result.is_success_with(account_id, result.events_added, result.events_updated)
        &&& result.sync_time == now
    }
}

/// What the reconciliation of a table with candidates gives: the counts,
/// with the table reconciled; or, where the table has no room for the
/// candidates that are new, a failure that leaves the table as it was.
pub open spec fn candidates_synced(
    before: Seq<CalendarEventView>,
    account_id: i64,
    candidates: Seq<CalendarEventView>,
    now: i64,
    outcome: Result<(usize, usize), SyncError>,
    after: Seq<CalendarEventView>,
) -> bool {
    if reconciled(before, account_id, candidates, now).rows.len() <= MAX_ROWS {
        &&& outcome matches Ok(counts)
        &&& reconciled(before, account_id, candidates, now) == (Tally {
            rows: after,
            added: counts.0 as nat,
            updated: counts.1 as nat,
        })
    } else {
        outcome matches Err(SyncError::StoreFull) && after == before
    }
}

/// What the sync of a table with the feed text `text` gives. A text that
/// is no calendar document fails as unparsed and leaves the table as it
/// was. A document gives what the reconciliation with its candidates gives.
pub open spec fn feed_synced(
    before: Seq<CalendarEventView>,
    account_id: i64,
    text: Seq<char>,
    tag: Seq<char>,
    now: i64,
    outcome: Result<(usize, usize), SyncError>,
    after: Seq<CalendarEventView>,
) -> bool {
    match ics_document(text) {
        None => outcome matches Err(SyncError::Parse(_)) && after == before,
        Some(components) => exists|candidates: Seq<CalendarEventView>|
            {
                &&& #[trigger] are_candidates_of(candidates, events_of(components), tag, now)
                &&& candidates_synced(before, account_id, candidates, now, outcome, after)
            },
    }
}

/// Reconciles the events of `account_id` with `candidates`, where the table
/// has room for those that are new.
pub fn sync_candidates(store: &mut EventStore, account_id: i64, candidates: &Vec<CalendarEvent>, now: i64) -> (r:
    Result<(usize, usize), SyncError>)
    requires
        old(store).wf(),
    ensures
        final(store).wf(),
        keeps_rows(old(store).rows(), final(store).rows()),
        candidates_synced(
            old(store).rows(),
            account_id,
            event_views(candidates@),
            now,
            r,
            final(store).rows(),
        ),
{
    match try_reconcile(store, account_id, candidates, now) {
        Some(counts) => Ok(counts),
        None => Err(SyncError::StoreFull),
    }
}

/// Normalises the text of a feed and reconciles the events of `account_id`
/// with it; returns how many events were added and how many updated.
///
/// A text that is no calendar document fails, and so does a document with
/// more new events than the table has room for; both leave the table as it
/// was.
pub fn sync_feed_text(store: &mut EventStore, account_id: i64, text: &str, tag: &str, now: i64) -> (r:
    Result<(usize, usize), SyncError>)
    requires
        old(store).wf(),
    ensures
        final(store).wf(),
        keeps_rows(old(store).rows(), final(store).rows()),
        feed_synced(old(store).rows(), account_id, text@, tag@, now, r, final(store).rows()),
{
    let candidates = match normalize(text, tag, now) {
        Ok(candidates) => candidates,
        Err(message) => {
            proof {
                lemma_rows_keep_themselves(store.rows());
            }
            return Err(SyncError::Parse(message));
        },
    };
    let r = sync_candidates(store, account_id, &candidates, now);
    assert(are_candidates_of(
        event_views(candidates@),
        events_of(ics_document(text@)->0),
        tag@,
        now,
    ));
    r
}

/// Idempotent sync: after a sync with a feed text has succeeded, a second
/// sync with the same text, at whatever time, succeeds, adds nothing,
/// updates nothing, and leaves every row as the first sync left it.
///
/// This holds of a feed whose events become the same candidates in every
/// sync. An event whose start does not resolve starts at the time of the
/// sync, and of two events that share an identity and differ the later
/// overwrites the earlier: each sync updates such events anew.
pub proof fn lemma_second_sync_changes_nothing(
    before: Seq<CalendarEventView>,
    account_id: i64,
    text: Seq<char>,
    tag: Seq<char>,
    first_now: i64,
    second_now: i64,
    first: Result<(usize, usize), SyncError>,
    mid: Seq<CalendarEventView>,
    second: Result<(usize, usize), SyncError>,
    after: Seq<CalendarEventView>,
)
    requires
        rows_wf(before),
        ics_document(text) matches Some(components) && is_stable_feed(events_of(components), tag),
        feed_synced(before, account_id, text, tag, first_now, first, mid),
        first is Ok,
        feed_synced(mid, account_id, text, tag, second_now, second, after),
    ensures
        second == Ok::<(usize, usize), SyncError>((0usize, 0usize)),
        after == mid,
{
    let entries = events_of(ics_document(text)->0);
    let once = stable_candidates(entries, tag, first_now);
    let again = stable_candidates(entries, tag, second_now);
    let plain = stable_candidates(entries, tag, 0);
    let seen = choose|candidates: Seq<CalendarEventView>|
        {
            &&& #[trigger] are_candidates_of(candidates, entries, tag, first_now)
            &&& candidates_synced(before, account_id, candidates, first_now, first, mid)
        };
    lemma_stable_events_have_one_reading(seen, entries, tag, first_now);
    let seen_again = choose|candidates: Seq<CalendarEventView>|
        {
            &&& #[trigger] are_candidates_of(candidates, entries, tag, second_now)
            &&& candidates_synced(mid, account_id, candidates, second_now, second, after)
        };
    lemma_stable_events_have_one_reading(seen_again, entries, tag, second_now);
    assert forall|i: int, j: int|
        0 <= i < j < once.len() && (#[trigger] once[i]).external_id == (
        #[trigger] once[j]).external_id implies !once[i].content_differs(once[j]) by {
        assert(is_stable_entry(entries[i]) && is_stable_entry(entries[j]));
        assert(plain[i].external_id == plain[j].external_id);
    }
    assert(same_content(once, again)) by {
        assert forall|k: int| 0 <= k < once.len() implies {
            &&& (#[trigger] again[k]).external_id == once[k].external_id
            &&& !once[k].content_differs(again[k])
        } by {
            assert(is_stable_entry(entries[k]));
        }
    }
    lemma_second_run_changes_nothing(before, account_id, once, again, first_now, second_now);
}

/// A table keeps its own rows.
pub proof fn lemma_rows_keep_themselves(rows: Seq<CalendarEventView>)
    ensures
        keeps_rows(rows, rows),
{
}

/// The name of the circuit breaker of a provider's service.
pub open spec fn service_name(provider: CalendarProvider) -> Seq<char> {
    match provider {
        CalendarProvider::Google => "google_calendar"@,
        CalendarProvider::Proton => "proton_calendar"@,
    }
}

/// The table of events and the breakers, as a sync finds and leaves them.
pub struct SyncState {
    pub rows: Seq<CalendarEventView>,
    pub registry: RegistryModel,
}

/// What the sync of an account of `provider` gives, and how it leaves the
/// table and the breaker of the provider's service.
pub open spec fn provider_synced<G: Fn(&str) -> HttpAttempt, K: Fn() -> u64>(
    provider: CalendarProvider,
    get: &G,
    clock: &K,
    address: Seq<char>,
    account_id: i64,
    rows_before: Seq<CalendarEventView>,
    breaker_before: BreakerModel,
    now: i64,
    now_ms: u64,
    r: Result<SyncResult, SyncError>,
    rows_after: Seq<CalendarEventView>,
    breaker_after: BreakerModel,
) -> bool {
    match provider {
        CalendarProvider::Google => google::google_synced(
            get,
            clock,
            address,
            account_id,
            rows_before,
            breaker_before,
            now,
            now_ms,
            r,
            rows_after,
            breaker_after,
        ),
        CalendarProvider::Proton => proton::proton_synced(
            get,
            clock,
            address,
            account_id,
            rows_before,
            breaker_before,
            now,
            now_ms,
            r,
            rows_after,
            breaker_after,
        ),
    }
}

/// The message for an account whose provider tag names no provider.
pub open spec fn unknown_provider_message(tag: Seq<char>) -> Seq<char> {
    "Unknown provider: "@ + tag
}

/// What the sync of an account gives, and how it leaves the table and the
/// breakers.
///
/// An account whose provider tag is unknown fails with a message that
/// names the tag, and nothing changes. Any other account is synchronised as
/// its provider's sync says, under the breaker of the provider's service;
/// no other breaker changes.
pub open spec fn account_synced<G: Fn(&str) -> HttpAttempt, K: Fn() -> u64>(
    get: &G,
    clock: &K,
    account: Account,
    before: SyncState,
    now: i64,
    now_ms: u64,
    r: Result<SyncResult, SyncError>,
    after: SyncState,
) -> bool {
    match provider_of_tag(account.provider@) {
        None => {
            &&& r matches Err(SyncError::UnknownProvider(message))
            &&& message@ == unknown_provider_message(account.provider@)
            &&& after == before
        },
        Some(provider) => {
            &&& provider_synced(
                provider,
                get,
                clock,
                account.auth_data@,
                account_key(account.id),
                before.rows,
                before.registry.breaker(service_name(provider)),
                now,
                now_ms,
                r,
                after.rows,
                after.registry.breaker(service_name(provider)),
            )
            &&& after.registry == before.registry.with_breaker(
                service_name(provider),
                after.registry.breaker(service_name(provider)),
            )
        },
    }
}

/// When a sync fails, and with which failure.
///
/// The address is refused exactly when the sync fails as an invalid
/// address, and an accepted address meets a breaker that does not admit the
/// call exactly when the sync fails as rejected; both leave the breaker as
/// it was. A failure of the requests is one that `get` brought, counted
/// once by the breaker at a reading of the clock. A sync fails as unparsed
/// or for want of room only on a text that `get` brought: one that is no
/// calendar document, or one with more events than the table has room for.
/// Every failure leaves the table as it was. A success had a text that
/// `get` brought, and the breaker has seen a success.
pub proof fn lemma_sync_failures<G: Fn(&str) -> HttpAttempt, K: Fn() -> u64>(
    provider: CalendarProvider,
    get: &G,
    clock: &K,
    address: Seq<char>,
    account_id: i64,
    rows_before: Seq<CalendarEventView>,
    breaker_before: BreakerModel,
    now: i64,
    now_ms: u64,
    r: Result<SyncResult, SyncError>,
    rows_after: Seq<CalendarEventView>,
    breaker_after: BreakerModel,
)
    requires
        rows_wf(rows_before),
        provider_synced(
            provider,
            get,
            clock,
            address,
            account_id,
            rows_before,
            breaker_before,
            now,
            now_ms,
            r,
            rows_after,
            breaker_after,
        ),
    ensures
        !common::is_accepted_address(address) <==> r matches Err(
            SyncError::Fetch(FetchError::InvalidUrl(_)),
        ),
        common::is_accepted_address(address) && !breaker_before.admits(now_ms) <==> r matches Err(
            SyncError::Fetch(FetchError::CircuitOpen),
        ),
        !common::is_accepted_address(address) || !breaker_before.admits(now_ms) ==> breaker_after
            == breaker_before,
        r matches Err(SyncError::Fetch(FetchError::Failed(failure))) ==> {
            &&& common::is_fetch_failure(get, address, failure)
            &&& failed_at_reading(clock, breaker_before.on_arrival(now_ms), breaker_after)
            &&& breaker_after.failure_count == bumped(breaker_before.on_arrival(now_ms).failure_count)
        },
        r matches Err(SyncError::Parse(_)) ==> exists|text: Seq<char>| #[trigger]
            common::is_fetched_by(get, address, text) && ics_document(text) is None,
        r matches Err(SyncError::StoreFull) ==> exists|text: Seq<char>| #[trigger]
            common::is_fetched_by(get, address, text) && ics_document(text) is Some
                && rows_before.len() + events_of(ics_document(text)->0).len() > MAX_ROWS,
        !(r matches Err(SyncError::UnknownProvider(_))),
        r is Err ==> rows_after == rows_before,
        r is Ok ==> {
            &&& exists|text: Seq<char>| common::is_fetched_by(get, address, text)
            &&& breaker_after == breaker_before.on_arrival(now_ms).after_success()
        },
{
    match provider {
        CalendarProvider::Google => {
            google::lemma_google_sync_failures(
                get,
                clock,
                address,
                account_id,
                rows_before,
                breaker_before,
                now,
                now_ms,
                r,
                rows_after,
                breaker_after,
            );
        },
        CalendarProvider::Proton => {
            proton::lemma_proton_sync_failures(
                get,
                clock,
                address,
                account_id,
                rows_before,
                breaker_before,
                now,
                now_ms,
                r,
                rows_after,
                breaker_after,
            );
        },
    }
}

/// An account's sync fails for its provider exactly when its provider tag
/// names no provider.
pub proof fn lemma_unknown_provider_fails<G: Fn(&str) -> HttpAttempt, K: Fn() -> u64>(
    get: &G,
    clock: &K,
    account: Account,
    before: SyncState,
    now: i64,
    now_ms: u64,
    r: Result<SyncResult, SyncError>,
    after: SyncState,
)
    requires
        rows_wf(before.rows),
        account_synced(get, clock, account, before, now, now_ms, r, after),
    ensures
        provider_of_tag(account.provider@) is None <==> r matches Err(SyncError::UnknownProvider(_)),
{
    match provider_of_tag(account.provider@) {
        None => {},
        Some(provider) => {
            lemma_sync_failures(
                provider,
                get,
                clock,
                account.auth_data@,
                account_key(account.id),
                before.rows,
                before.registry.breaker(service_name(provider)),
                now,
                now_ms,
                r,
                after.rows,
                after.registry.breaker(service_name(provider)),
            );
        },
    }
}

/// Synchronises one account through the breaker of its provider's service.
///
/// The result, the table and the breakers are as `account_synced` says.
/// Whatever the network brings, the table stays well formed and every row
/// keeps its place and its alert state.
pub fn sync_account<G: Fn(&str) -> HttpAttempt, S: Fn(u64), K: Fn() -> u64>(
    account: &Account,
    store: &mut EventStore,
    registry: &mut CircuitBreakerRegistry,
    now: i64,
    now_ms: u64,
    get: &G,
    sleep: &S,
    clock: &K,
) -> (r: Result<SyncResult, SyncError>)
    requires
        old(store).wf(),
        old(registry).wf(),
        forall|url: &str| get.requires((url,)),
        forall|ms: u64| sleep.requires((ms,)),
        clock.requires(()),
    ensures
        final(store).wf(),
        final(registry).wf(),
        keeps_rows(old(store).rows(), final(store).rows()),
        account_synced(
            get,
            clock,
            *account,
            SyncState { rows: old(store).rows(), registry: old(registry)@ },
            now,
            now_ms,
            r,
            SyncState { rows: final(store).rows(), registry: final(registry)@ },
        ),
        provider_of_tag(account.provider@) is None <==> r matches Err(SyncError::UnknownProvider(_)),
        r is Err ==> final(store).rows() == old(store).rows(),
{
    let provider = match account.provider() {
        Ok(provider) => provider,
        Err(message) => {
            proof {
                lemma_rows_keep_themselves(store.rows());
            }
            return Err(SyncError::UnknownProvider(message));
        },
    };
    let ghost before = registry@;
    match provider {
        CalendarProvider::Google => {
            let breaker = registry.get_breaker(google::GOOGLE_SERVICE);
            let r = google::sync_google_calendar(
                account,
                store,
                breaker,
                now,
                now_ms,
                get,
                sleep,
                clock,
            );
            proof {
                lemma_breaker_after_use(before, google::GOOGLE_SERVICE@, breaker@);
            }
            r
        },
        CalendarProvider::Proton => {
            let breaker = registry.get_breaker(proton::PROTON_SERVICE);
            let r = proton::sync_proton_calendar(
                account,
                store,
                breaker,
                now,
                now_ms,
                get,
                sleep,
                clock,
            );
            proof {
                lemma_breaker_after_use(before, proton::PROTON_SERVICE@, breaker@);
            }
            r
        },
    }
}

/// What a connection test of an account of a known provider gives, and how
/// it leaves the breaker of the provider's service: the feed is reachable
/// exactly when a fetch of it succeeds.
pub open spec fn connection_tested<G: Fn(&str) -> HttpAttempt, K: Fn() -> u64>(
    get: &G,
    clock: &K,
    address: Seq<char>,
    before: BreakerModel,
    now_ms: u64,
    reachable: bool,
    after: BreakerModel,
) -> bool {
    exists|fetched: Result<String, FetchError>|
        {
            &&& #[trigger] common::fetch_outcome(get, clock, address, before, now_ms, fetched, after)
            &&& reachable == (fetched is Ok)
        }
}

/// What a connection test shows. A feed found reachable had an accepted
/// address, came at a breaker that admitted the call, and `get` brought a
/// text from it. A feed at an accepted address, tested at a breaker that
/// admits the call, of which every response is a success with a body that
/// is no HTML document, is found reachable.
pub proof fn lemma_reachable_feed_was_fetched<G: Fn(&str) -> HttpAttempt, K: Fn() -> u64>(
    get: &G,
    clock: &K,
    address: Seq<char>,
    before: BreakerModel,
    now_ms: u64,
    reachable: bool,
    after: BreakerModel,
)
    requires
        connection_tested(get, clock, address, before, now_ms, reachable, after),
    ensures
        reachable ==> {
            &&& common::is_accepted_address(address)
            &&& before.admits(now_ms)
            &&& exists|text: Seq<char>| common::is_fetched_by(get, address, text)
            &&& after == before.on_arrival(now_ms).after_success()
        },
        common::is_accepted_address(address) && before.admits(now_ms) && common::always_answers(
            get,
            address,
        ) ==> reachable,
{
    let fetched = choose|fetched: Result<String, FetchError>|
        {
            &&& #[trigger] common::fetch_outcome(get, clock, address, before, now_ms, fetched, after)
            &&& reachable == (fetched is Ok)
        };
    if reachable {
        assert(common::is_fetched_by(get, address, fetched->Ok_0@));
    }
    if common::is_accepted_address(address) && before.admits(now_ms) && common::always_answers(
        get,
        address,
    ) {
        common::lemma_answered_fetch_succeeds(get, clock, address, before, now_ms, fetched, after);
    }
}

/// Tests whether the account's feed can be fetched, through the breaker of
/// its provider's service. An account whose provider tag is unknown fails.
pub fn test_connection<G: Fn(&str) -> HttpAttempt, S: Fn(u64), K: Fn() -> u64>(
    account: &Account,
    registry: &mut CircuitBreakerRegistry,
    now_ms: u64,
    get: &G,
    sleep: &S,
    clock: &K,
) -> (r: Result<bool, SyncError>)
    requires
        old(registry).wf(),
        forall|url: &str| get.requires((url,)),
        forall|ms: u64| sleep.requires((ms,)),
        clock.requires(()),
    ensures
        final(registry).wf(),
        match provider_of_tag(account.provider@) {
            None => {
                &&& r matches Err(SyncError::UnknownProvider(message))
                &&& message@ == unknown_provider_message(account.provider@)
                &&& final(registry)@ == old(registry)@
            },
            Some(provider) => {
                &&& r matches Ok(reachable)
                &&& connection_tested(
                    get,
                    clock,
                    account.auth_data@,
                    old(registry)@.breaker(service_name(provider)),
                    now_ms,
                    reachable,
                    final(registry)@.breaker(service_name(provider)),
                )
                &&& final(registry)@ == old(registry)@.with_breaker(
                    service_name(provider),
                    final(registry)@.breaker(service_name(provider)),
                )
            },
        },
        r matches Ok(true) ==> exists|text: Seq<char>|
            common::is_fetched_by(get, account.auth_data@, text),
{
    let provider = match account.provider() {
        Ok(provider) => provider,
        Err(message) => {
            return Err(SyncError::UnknownProvider(message));
        },
    };
    let ghost before = registry@;
    match provider {
        CalendarProvider::Google => {
            let breaker = registry.get_breaker(google::GOOGLE_SERVICE);
            let reachable = google::test_connection(account, breaker, now_ms, get, sleep, clock);
            proof {
                lemma_breaker_after_use(before, google::GOOGLE_SERVICE@, breaker@);
            }
            Ok(reachable)
        },
        CalendarProvider::Proton => {
            let breaker = registry.get_breaker(proton::PROTON_SERVICE);
            let reachable = proton::test_connection(account, breaker, now_ms, get, sleep, clock);
            proof {
                lemma_breaker_after_use(before, proton::PROTON_SERVICE@, breaker@);
            }
            Ok(reachable)
        },
    }
}

} // verus!
