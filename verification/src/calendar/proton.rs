//! Proton Calendar, read through its feed.
use vstd::prelude::*;
use crate::calendar::common::{
    always_answers, fetch_ics_data, fetch_outcome, is_accepted_address, is_fetch_failure,
    is_fetched_by, lemma_answered_fetch_succeeds, serves_only, FetchError, HttpAttempt,
};
use crate::calendar::ics::{events_of, ics_document, read_events, IcsEvent};
use crate::calendar::normalize::{
    are_candidates_of, is_candidate_of, is_stable_feed, normalize, normalize_event,
};
use crate::calendar::reconcile::{keeps_rows, lemma_prefix_grows_by_candidates, Tally};
use crate::calendar::{
    account_key, candidates_synced, connection_tested, counts_of, feed_synced, is_report,
    lemma_rows_keep_themselves, lemma_second_sync_changes_nothing, sync_feed_text, SyncError,
};
use crate::database::events::{rows_wf, EventStore, MAX_ROWS};
use crate::models::account::Account;
use crate::models::event::{event_views, CalendarEvent, CalendarEventView};
use crate::models::sync::SyncResult;
use crate::utils::circuit_breaker::{bumped, failed_at_reading, BreakerModel, CircuitBreaker};

verus! {

/// The tag before the hash that identifies an event without UID.
pub const PROTON_TAG: &'static str = "proton-";

/// The name of the service's circuit breaker.
pub const PROTON_SERVICE: &'static str = "proton_calendar";

/// Turns an event of the feed into a candidate, at the time `now` of the
/// sync.
pub fn convert_ics_event(entry: &IcsEvent, now: i64) -> (candidate: CalendarEvent)
    ensures
        is_candidate_of(candidate@, entry@, PROTON_TAG@, now),
{
    normalize_event(entry, PROTON_TAG, now)
}

/// Normalises the text of the feed: one candidate for each event of the
/// document, in order, or the parser's message for a text that is no
/// calendar document.
pub fn parse_ics_data(ics_data: &str, now: i64) -> (r: Result<Vec<CalendarEvent>, String>)
    ensures
        match r {
            Ok(candidates) => ics_document(ics_data@) matches Some(components)
                && are_candidates_of(
                event_views(candidates@),
                events_of(components),
                PROTON_TAG@,
                now,
            ),
            Err(_) => ics_document(ics_data@) is None,
        },
{
    normalize(ics_data, PROTON_TAG, now)
}

/// What the sync of a Proton account gives, and how it leaves the table
/// and the breaker.
///
/// The feed is fetched from the account's address as `fetch_outcome` says.
/// A failed fetch is the failure of the sync, and the table stays as it
/// was. A fetched text is synchronised as `feed_synced` says; the result of
/// a success is the record of its counts at `now`.
pub open spec fn proton_synced<G: Fn(&str) -> HttpAttempt, K: Fn() -> u64>(
    get: &G,
    clock: &K,
    address: Seq<char>,
    account_id: i64,
    rows_before: Seq<CalendarEventView>,
    breaker_before: BreakerModel,
    now: i64,
    now_ms: u64,
    r: Result<SyncResult, SyncError>,
    rows_after: Seq<CalendarEventView>,
    breaker_after: BreakerModel,
) -> bool {
    exists|fetched: Result<String, FetchError>|
        {
            &&& #[trigger] fetch_outcome(
                get,
                clock,
                address,
                breaker_before,
                now_ms,
                fetched,
                breaker_after,
            )
            &&& is_report(r, account_id, now)
            &&& match fetched {
                Err(e) => r == Err::<SyncResult, SyncError>(SyncError::Fetch(e)) && rows_after
                    == rows_before,
                Ok(text) => feed_synced(
                    rows_before,
                    account_id,
                    text@,
                    PROTON_TAG@,
                    now,
                    counts_of(r),
                    rows_after,
                ),
            }
        }
}

/// Whether every text that `get` can bring from `address` is a calendar
/// document with no more events than a table of `rows` rows has room for.
pub open spec fn brings_calendars<G: Fn(&str) -> HttpAttempt>(get: &G, address: Seq<char>, rows: nat) -> bool {
    forall|text: Seq<char>| #[trigger]
        is_fetched_by(get, address, text) ==> (ics_document(text) matches Some(components) && rows
            + events_of(components).len() <= MAX_ROWS)
}

/// Success is owed where nothing stands against it: the sync of an accepted
/// address, at a breaker that admits the call, from a source of which every
/// response is a calendar document that the table has room for, succeeds.
pub proof fn lemma_proton_sync_succeeds<G: Fn(&str) -> HttpAttempt, K: Fn() -> u64>(
    get: &G,
    clock: &K,
    address: Seq<char>,
    account_id: i64,
    rows_before: Seq<CalendarEventView>,
    breaker_before: BreakerModel,
    now: i64,
    now_ms: u64,
    r: Result<SyncResult, SyncError>,
    rows_after: Seq<CalendarEventView>,
    breaker_after: BreakerModel,
)
    requires
        proton_synced(
            get,
            clock,
            address,
            account_id,
            rows_before,
            breaker_before,
            now,
            now_ms,
            r,
            rows_after,
            breaker_after,
        ),
        is_accepted_address(address),
        breaker_before.admits(now_ms),
        always_answers(get, address),
        brings_calendars(get, address, rows_before.len()),
    ensures
        r is Ok,
        breaker_after == breaker_before.on_arrival(now_ms).after_success(),
{
    let fetched = choose|fetched: Result<String, FetchError>|
        {
            &&& #[trigger] fetch_outcome(
                get,
                clock,
                address,
                breaker_before,
                now_ms,
                fetched,
                breaker_after,
            )
            &&& is_report(r, account_id, now)
            &&& match fetched {
                Err(e) => r == Err::<SyncResult, SyncError>(SyncError::Fetch(e)) && rows_after
                    == rows_before,
                Ok(text) => feed_synced(
                    rows_before,
                    account_id,
                    text@,
                    PROTON_TAG@,
                    now,
                    counts_of(r),
                    rows_after,
                ),
            }
        };
    lemma_answered_fetch_succeeds(get, clock, address, breaker_before, now_ms, fetched, breaker_after);
    let text = fetched->Ok_0@;
    assert(is_fetched_by(get, address, text));
    let entries = events_of(ics_document(text)->0);
    let candidates = choose|candidates: Seq<CalendarEventView>|
        {
            &&& #[trigger] are_candidates_of(candidates, entries, PROTON_TAG@, now)
            &&& candidates_synced(rows_before, account_id, candidates, now, counts_of(r), rows_after)
        };
    lemma_prefix_grows_by_candidates(
        Tally { rows: rows_before, added: 0, updated: 0 },
        account_id,
        candidates,
        now,
        candidates.len() as int,
    );
}

/// Idempotent sync: where the source serves one feed text, and a sync has
/// succeeded, a second sync at whatever time succeeds, adds nothing,
/// updates nothing, and leaves every row as the first sync left it.
///
/// This holds of a feed whose events become the same candidates in every
/// sync (see `is_stable_feed`).
pub proof fn lemma_second_proton_sync_changes_nothing<G: Fn(&str) -> HttpAttempt, K: Fn() -> u64>(
    get: &G,
    clock: &K,
    address: Seq<char>,
    account_id: i64,
    feed: Seq<char>,
    rows_before: Seq<CalendarEventView>,
    breaker_before: BreakerModel,
    first_now: i64,
    first_ms: u64,
    first: Result<SyncResult, SyncError>,
    rows_between: Seq<CalendarEventView>,
    breaker_between: BreakerModel,
    second_now: i64,
    second_ms: u64,
    second: Result<SyncResult, SyncError>,
    rows_after: Seq<CalendarEventView>,
    breaker_after: BreakerModel,
)
    requires
        rows_wf(rows_before),
        serves_only(get, address, feed),
        ics_document(feed) matches Some(components) && is_stable_feed(
            events_of(components),
            PROTON_TAG@,
        ),
        proton_synced(
            get,
            clock,
            address,
            account_id,
            rows_before,
            breaker_before,
            first_now,
            first_ms,
            first,
            rows_between,
            breaker_between,
        ),
        first is Ok,
        proton_synced(
            get,
            clock,
            address,
            account_id,
            rows_between,
            breaker_between,
            second_now,
            second_ms,
            second,
            rows_after,
            breaker_after,
        ),
    ensures
        second matches Ok(result) && result.events_added == 0 && result.events_updated == 0,
        rows_after == rows_between,
{
    let fetched = choose|fetched: Result<String, FetchError>|
        {
            &&& #[trigger] fetch_outcome(
                get,
                clock,
                address,
                breaker_before,
                first_ms,
                fetched,
                breaker_between,
            )
            &&& is_report(first, account_id, first_now)
            &&& match fetched {
                Err(e) => first == Err::<SyncResult, SyncError>(SyncError::Fetch(e))
                    && rows_between == rows_before,
                Ok(text) => feed_synced(
                    rows_before,
                    account_id,
                    text@,
                    PROTON_TAG@,
                    first_now,
                    counts_of(first),
                    rows_between,
                ),
            }
        };
    assert(fetched is Ok);
    assert(is_accepted_address(address));
    assert(breaker_before.admits(first_ms));
    lemma_answered_fetch_succeeds(
        get,
        clock,
        address,
        breaker_before,
        first_ms,
        fetched,
        breaker_between,
    );
    assert(breaker_between.admits(second_ms));
    let again = choose|fetched: Result<String, FetchError>|
        {
            &&& #[trigger] fetch_outcome(
                get,
                clock,
                address,
                breaker_between,
                second_ms,
                fetched,
                breaker_after,
            )
            &&& is_report(second, account_id, second_now)
            &&& match fetched {
                Err(e) => second == Err::<SyncResult, SyncError>(SyncError::Fetch(e))
                    && rows_after == rows_between,
                Ok(text) => feed_synced(
                    rows_between,
                    account_id,
                    text@,
                    PROTON_TAG@,
                    second_now,
                    counts_of(second),
                    rows_after,
                ),
            }
        };
    lemma_answered_fetch_succeeds(
        get,
        clock,
        address,
        breaker_between,
        second_ms,
        again,
        breaker_after,
    );
    assert(fetched->Ok_0@ == feed);
    assert(again->Ok_0@ == feed);
    lemma_second_sync_changes_nothing(
        rows_before,
        account_id,
        feed,
        PROTON_TAG@,
        first_now,
        second_now,
        counts_of(first),
        rows_between,
        counts_of(second),
        rows_after,
    );
}

/// When a Proton sync fails, and with which failure.
///
/// The address is refused exactly when the sync fails as an invalid
/// address, and an accepted address meets a breaker that does not admit the
/// call exactly when the sync fails as rejected; both leave the breaker as
/// it was. A failure of the requests is one that `get` brought, counted
/// once by the breaker at a reading of the clock. A sync fails as unparsed
/// or for want of room only on a text that `get` brought. Every failure
/// leaves the table as it was. A success had a text that `get` brought,
/// and the breaker has seen a success.
pub proof fn lemma_proton_sync_failures<G: Fn(&str) -> HttpAttempt, K: Fn() -> u64>(
    get: &G,
    clock: &K,
    address: Seq<char>,
    account_id: i64,
    rows_before: Seq<CalendarEventView>,
    breaker_before: BreakerModel,
    now: i64,
    now_ms: u64,
    r: Result<SyncResult, SyncError>,
    rows_after: Seq<CalendarEventView>,
    breaker_after: BreakerModel,
)
    requires
        rows_wf(rows_before),
        proton_synced(
            get,
            clock,
            address,
            account_id,
            rows_before,
            breaker_before,
            now,
            now_ms,
            r,
            rows_after,
            breaker_after,
        ),
    ensures
        !is_accepted_address(address) <==> r matches Err(SyncError::Fetch(FetchError::InvalidUrl(_))),
        is_accepted_address(address) && !breaker_before.admits(now_ms) <==> r matches Err(
            SyncError::Fetch(FetchError::CircuitOpen),
        ),
        !is_accepted_address(address) || !breaker_before.admits(now_ms) ==> breaker_after
            == breaker_before,
        r matches Err(SyncError::Fetch(FetchError::Failed(failure))) ==> {
            &&& is_fetch_failure(get, address, failure)
            &&& failed_at_reading(clock, breaker_before.on_arrival(now_ms), breaker_after)
            &&& breaker_after.failure_count == bumped(breaker_before.on_arrival(now_ms).failure_count)
        },
        r matches Err(SyncError::Parse(_)) ==> exists|text: Seq<char>| #[trigger]
            is_fetched_by(get, address, text) && ics_document(text) is None,
        r matches Err(SyncError::StoreFull) ==> exists|text: Seq<char>| #[trigger]
            is_fetched_by(get, address, text) && ics_document(text) is Some && rows_before.len()
                + events_of(ics_document(text)->0).len() > MAX_ROWS,
        !(r matches Err(SyncError::UnknownProvider(_))),
        r is Err ==> rows_after == rows_before,
        r is Ok ==> {
            &&& exists|text: Seq<char>| is_fetched_by(get, address, text)
            &&& breaker_after == breaker_before.on_arrival(now_ms).after_success()
        },
{
    let fetched = choose|fetched: Result<String, FetchError>|
        {
            &&& #[trigger] fetch_outcome(
                get,
                clock,
                address,
                breaker_before,
                now_ms,
                fetched,
                breaker_after,
            )
            &&& is_report(r, account_id, now)
            &&& match fetched {
                Err(e) => r == Err::<SyncResult, SyncError>(SyncError::Fetch(e)) && rows_after
                    == rows_before,
                Ok(text) => feed_synced(
                    rows_before,
                    account_id,
                    text@,
                    PROTON_TAG@,
                    now,
                    counts_of(r),
                    rows_after,
                ),
            }
        };
    if fetched is Ok {
        let text = fetched->Ok_0@;
        assert(is_fetched_by(get, address, text));
        if ics_document(text) is Some {
            let entries = events_of(ics_document(text)->0);
            let candidates = choose|candidates: Seq<CalendarEventView>|
                {
                    &&& #[trigger] are_candidates_of(candidates, entries, PROTON_TAG@, now)
                    &&& candidates_synced(
                        rows_before,
                        account_id,
                        candidates,
                        now,
                        counts_of(r),
                        rows_after,
                    )
                };
            lemma_prefix_grows_by_candidates(
                Tally { rows: rows_before, added: 0, updated: 0 },
                account_id,
                candidates,
                now,
                candidates.len() as int,
            );
        }
    }
}

/// Synchronises a Proton account: fetches its feed under `breaker`,
/// normalises the text, and reconciles the account's events with it.
///
/// The result, the table and the breaker are as `proton_synced` says.
/// Whatever the network brings, the table stays well formed and every row
/// keeps its place and its alert state.
pub fn sync_proton_calendar<G: Fn(&str) -> HttpAttempt, S: Fn(u64), K: Fn() -> u64>(
    account: &Account,
    store: &mut EventStore,
    breaker: &mut CircuitBreaker,
    now: i64,
    now_ms: u64,
    get: &G,
    sleep: &S,
    clock: &K,
) -> (r: Result<SyncResult, SyncError>)
    requires
        old(store).wf(),
        forall|url: &str| get.requires((url,)),
        forall|ms: u64| sleep.requires((ms,)),
        clock.requires(()),
    ensures
        final(store).wf(),
        keeps_rows(old(store).rows(), final(store).rows()),
        proton_synced(
            get,
            clock,
            account.auth_data@,
            account_key(account.id),
            old(store).rows(),
            old(breaker)@,
            now,
            now_ms,
            r,
            final(store).rows(),
            final(breaker)@,
        ),
        !is_accepted_address(account.auth_data@) <==> r matches Err(
            SyncError::Fetch(FetchError::InvalidUrl(_)),
        ),
        is_accepted_address(account.auth_data@) && !old(breaker)@.admits(now_ms) <==> r matches Err(
            SyncError::Fetch(FetchError::CircuitOpen),
        ),
        r is Err ==> final(store).rows() == old(store).rows(),
{
    let account_id = match account.id {
        Some(id) => id,
        None => 0,
    };
    let fetched = fetch_ics_data(account.auth_data.as_str(), breaker, now_ms, get, sleep, clock);
    let ghost witness = fetched;
    let r = match fetched {
        Err(e) => {
            proof {
                lemma_rows_keep_themselves(store.rows());
            }
            Err(SyncError::Fetch(e))
        },
        Ok(text) => match sync_feed_text(store, account_id, text.as_str(), PROTON_TAG, now) {
            Ok((added, updated)) => Ok(SyncResult::with_counts_at(account_id, added, updated, now)),
            Err(e) => Err(e),
        },
    };
    proof {
        assert(fetch_outcome(
            get,
            clock,
            account.auth_data@,
            old(breaker)@,
            now_ms,
            witness,
            breaker@,
        ));
        lemma_proton_sync_failures(
            get,
            clock,
            account.auth_data@,
            account_id,
            old(store).rows(),
            old(breaker)@,
            now,
            now_ms,
            r,
            store.rows(),
            breaker@,
        );
    }
    r
}

/// Tests whether the account's feed can be fetched: it is reachable
/// exactly when a fetch of it succeeds.
pub fn test_connection<G: Fn(&str) -> HttpAttempt, S: Fn(u64), K: Fn() -> u64>(
    account: &Account,
    breaker: &mut CircuitBreaker,
    now_ms: u64,
    get: &G,
    sleep: &S,
    clock: &K,
) -> (reachable: bool)
    requires
        forall|url: &str| get.requires((url,)),
        forall|ms: u64| sleep.requires((ms,)),
        clock.requires(()),
    ensures
        connection_tested(
            get,
            clock,
            account.auth_data@,
            old(breaker)@,
            now_ms,
            reachable,
            final(breaker)@,
        ),
        reachable ==> exists|text: Seq<char>| is_fetched_by(get, account.auth_data@, text),
        !is_accepted_address(account.auth_data@) || !old(breaker)@.admits(now_ms) ==> !reachable
            && final(breaker)@ == old(breaker)@,
{
    let fetched = fetch_ics_data(account.auth_data.as_str(), breaker, now_ms, get, sleep, clock);
    assert(fetch_outcome(get, clock, account.auth_data@, old(breaker)@, now_ms, fetched, breaker@));
    proof {
        if fetched is Ok {
            assert(is_fetched_by(get, account.auth_data@, fetched->Ok_0@));
        }
    }
    fetched.is_ok()
}

/// What the test of an address gives, and how it leaves the breaker: the
/// address is valid exactly when a fetch from it succeeds and what it
/// brings is a calendar document.
pub open spec fn address_tested<G: Fn(&str) -> HttpAttempt, K: Fn() -> u64>(
    get: &G,
    clock: &K,
    address: Seq<char>,
    before: BreakerModel,
    now_ms: u64,
    valid: bool,
    after: BreakerModel,
) -> bool {
    exists|fetched: Result<String, FetchError>|
        {
            &&& #[trigger] fetch_outcome(get, clock, address, before, now_ms, fetched, after)
            &&& valid == (fetched matches Ok(text) && ics_document(text@) is Some)
        }
}

/// Tests whether an address gives a calendar document: whether it can be
/// fetched and what comes is one.
pub fn validate_ics_url<G: Fn(&str) -> HttpAttempt, S: Fn(u64), K: Fn() -> u64>(
    ics_url: &str,
    breaker: &mut CircuitBreaker,
    now_ms: u64,
    get: &G,
    sleep: &S,
    clock: &K,
) -> (valid: bool)
    requires
        forall|url: &str| get.requires((url,)),
        forall|ms: u64| sleep.requires((ms,)),
        clock.requires(()),
    ensures
        address_tested(get, clock, ics_url@, old(breaker)@, now_ms, valid, final(breaker)@),
{
    let fetched = fetch_ics_data(ics_url, breaker, now_ms, get, sleep, clock);
    assert(fetch_outcome(get, clock, ics_url@, old(breaker)@, now_ms, fetched, breaker@));
    match &fetched {
        Ok(text) => read_events(text.as_str()).is_ok(),
        Err(_) => false,
    }
}

} // verus!
