use openchime::calendar::reconcile::{plan_store, reconcile, store_event, try_reconcile, StoreAction};
use openchime::calendar::{sync_account, sync_candidates, sync_feed_text, test_connection, SyncError};
use openchime::calendar::common::HttpAttempt;
use openchime::database::events::{EventStore, SnoozeError};
use openchime::models::{Account, CalendarEvent};
use openchime::utils::circuit_breaker::{CircuitBreakerRegistry, CircuitState};

fn clock() -> u64 {
    0
}

fn candidate(external_id: &str, title: &str) -> CalendarEvent {
    CalendarEvent {
        id: None,
        external_id: external_id.to_string(),
        account_id: 0,
        title: title.to_string(),
        description: Some("about".to_string()),
        start_time: 1000,
        end_time: 2000,
        video_link: None,
        video_platform: None,
        snooze_count: 0,
        has_alerted: false,
        last_alert_threshold: None,
        is_dismissed: false,
        created_at: 5,
        updated_at: 5,
    }
}

#[test]
fn reconciliation_is_idempotent() {
    let mut store = EventStore::new();
    let candidates = vec![candidate("a", "A"), candidate("b", "B"), candidate("c", "C")];
    assert_eq!(reconcile(&mut store, 1, &candidates, 10), (3, 0));
    let after_first: Vec<String> = (0..store.len()).map(|i| format!("{:?}", store.get(i))).collect();
    assert_eq!(reconcile(&mut store, 1, &candidates, 20), (0, 0));
    let after_second: Vec<String> = (0..store.len()).map(|i| format!("{:?}", store.get(i))).collect();
    assert_eq!(after_first, after_second);
}

#[test]
fn candidates_that_disagree_are_counted_in_every_run() {
    let mut store = EventStore::new();
    let candidates = vec![candidate("a", "first title"), candidate("a", "second title")];
    assert_eq!(reconcile(&mut store, 1, &candidates, 10), (1, 1));
    assert_eq!(store.get(0).title, "second title");
    assert_eq!(reconcile(&mut store, 1, &candidates, 20), (0, 2));
    assert_eq!(store.len(), 1);
}

#[test]
fn alert_state_survives_reconciliation() {
    let mut store = EventStore::new();
    reconcile(&mut store, 1, &vec![candidate("a", "Old title")], 10);
    store.mark_alerted(1);
    store.record_threshold(0, 5);
    assert_eq!(store.snooze(1), Ok(()));
    store.mark_alerted(1);
    store.dismiss(1);

    let mut changed = candidate("a", "New title");
    changed.has_alerted = false;
    changed.last_alert_threshold = Some(30);
    changed.snooze_count = 9;
    assert_eq!(reconcile(&mut store, 1, &vec![changed], 99), (0, 1));
    let row = store.get(0);
    assert_eq!(row.title, "New title");
    assert!(row.has_alerted);
    assert_eq!(row.last_alert_threshold, Some(5));
    assert_eq!(row.snooze_count, 1);
    assert!(row.is_dismissed);
    assert_eq!(row.id, Some(1));
    assert_eq!(row.created_at, 10);
    assert_eq!(row.updated_at, 99);
}

#[test]
fn each_content_field_makes_a_difference() {
    let base = candidate("a", "T");
    let mut store = EventStore::new();
    assert_eq!(store_event(&mut store, &base, 1, 0), StoreAction::Insert);
    assert_eq!(store_event(&mut store, &base, 1, 1), StoreAction::Unchanged);
    assert_eq!(store.get(0).updated_at, 0);

    let mut c = base.clone();
    c.title = "U".to_string();
    assert_eq!(store_event(&mut store, &c, 1, 2), StoreAction::Update);
    c.description = None;
    assert_eq!(store_event(&mut store, &c, 1, 3), StoreAction::Update);
    c.start_time = 1001;
    assert_eq!(store_event(&mut store, &c, 1, 4), StoreAction::Update);
    c.end_time = 2001;
    assert_eq!(store_event(&mut store, &c, 1, 5), StoreAction::Update);
    c.video_link = Some("https://zoom.us/j/1".to_string());
    c.video_platform = Some("Zoom".to_string());
    assert_eq!(store_event(&mut store, &c, 1, 6), StoreAction::Update);
    assert_eq!(store.get(0).video_platform, Some("Zoom".to_string()));
    // The platform alone makes no difference.
    c.video_platform = Some("Other".to_string());
    assert_eq!(store_event(&mut store, &c, 1, 7), StoreAction::Unchanged);
    assert_eq!(store.get(0).video_platform, Some("Zoom".to_string()));
    assert_eq!(store.get(0).updated_at, 6);
    assert_eq!(store.len(), 1);

    assert_eq!(plan_store(None, &c), StoreAction::Insert);
    assert_eq!(plan_store(Some(store.get(0)), &c), StoreAction::Unchanged);
    assert_eq!(plan_store(Some(store.get(0)), &base), StoreAction::Update);
}

#[test]
fn events_are_keyed_by_account() {
    let mut store = EventStore::new();
    assert_eq!(reconcile(&mut store, 1, &vec![candidate("a", "A")], 0), (1, 0));
    assert_eq!(reconcile(&mut store, 2, &vec![candidate("a", "A")], 0), (1, 0));
    assert_eq!(store.len(), 2);
    assert_eq!(store.find("a", 1), Some(0));
    assert_eq!(store.find("a", 2), Some(1));
    assert_eq!(store.find("a", 3), None);
    assert_eq!(store.find("b", 1), None);
    assert_eq!(store.get(1).id, Some(2));
    assert_eq!(store.find_by_id(2), Some(1));
    assert_eq!(store.find_by_id(0), None);
    assert_eq!(store.find_by_id(3), None);
    assert_eq!(store.find_by_id(-1), None);
}

#[test]
fn inserted_rows_start_with_the_default_alert_state() {
    let mut store = EventStore::new();
    let mut c = candidate("a", "A");
    c.has_alerted = true;
    c.is_dismissed = true;
    c.snooze_count = 2;
    c.last_alert_threshold = Some(1);
    c.id = Some(77);
    c.account_id = 9;
    store.insert(&c, 4, 123);
    let row = store.get(0);
    assert_eq!(row.id, Some(1));
    assert_eq!(row.account_id, 4);
    assert!(!row.has_alerted);
    assert!(!row.is_dismissed);
    assert_eq!(row.snooze_count, 0);
    assert_eq!(row.last_alert_threshold, None);
    assert_eq!(row.created_at, 123);
    assert_eq!(row.updated_at, 123);
}

#[test]
fn test_snooze_event_not_found() {
    let mut store = EventStore::new();
    let result = store.snooze(42);
    assert!(result.is_err());
    assert_eq!(result, Err(SnoozeError::NotFound));
}

#[test]
fn test_dismiss_event_not_found() {
    let mut store = EventStore::new();
    store.dismiss(42);
    assert_eq!(store.len(), 0);
}

#[test]
fn test_mark_event_alerted_not_found() {
    let mut store = EventStore::new();
    store.mark_alerted(42);
    assert_eq!(store.len(), 0);
}

#[test]
fn test_get_events_needing_alert_empty() {
    let store = EventStore::new();
    assert!(store.get_needing_alert(0).is_empty());
    assert!(store.get_upcoming(0).is_empty());
}

#[test]
fn snoozing_is_capped_at_three() {
    let mut store = EventStore::new();
    store.insert(&candidate("a", "A"), 1, 0);
    store.mark_alerted(1);
    assert!(store.get(0).has_alerted);
    assert_eq!(store.snooze(1), Ok(()));
    assert!(!store.get(0).has_alerted);
    assert_eq!(store.snooze(1), Ok(()));
    assert_eq!(store.snooze(1), Ok(()));
    assert_eq!(store.get(0).snooze_count, 3);
    store.mark_alerted(1);
    assert_eq!(store.snooze(1), Err(SnoozeError::LimitReached));
    assert_eq!(store.get(0).snooze_count, 3);
    assert!(store.get(0).has_alerted);
}

#[test]
fn upcoming_events_are_those_of_the_rest_of_the_day() {
    let day = 86400 * 19_000;
    let now = day + 3600;
    let mut store = EventStore::new();
    let mut add = |id: &str, start: i64| {
        let mut c = candidate(id, id);
        c.start_time = start;
        store.insert(&c, 1, 0);
    };
    add("before now", now - 1);
    add("last second", day + 86399);
    add("now", now);
    add("noon", day + 43200);
    add("also noon", day + 43200);
    add("tomorrow", day + 86400);
    add("dismissed", now + 5);
    store.dismiss(7);
    let found: Vec<String> = store.get_upcoming(now).into_iter().map(|e| e.external_id).collect();
    assert_eq!(
        found,
        vec![
            "now".to_string(),
            "noon".to_string(),
            "also noon".to_string(),
            "last second".to_string()
        ]
    );
    // Before the epoch, days still end at 23:59:59.
    let mut early = EventStore::new();
    let mut c = candidate("e", "e");
    c.start_time = -1;
    early.insert(&c, 1, 0);
    c.external_id = "f".to_string();
    c.start_time = 0;
    early.insert(&c, 1, 0);
    let found: Vec<String> = early.get_upcoming(-86400).into_iter().map(|e| e.external_id).collect();
    assert_eq!(found, vec!["e".to_string()]);
}

#[test]
fn events_need_their_first_alert_shortly_before_they_start() {
    let now = 10_000;
    let mut store = EventStore::new();
    let mut add = |id: &str, start: i64, video: bool| {
        let mut c = candidate(id, id);
        c.start_time = start;
        if video {
            c.video_link = Some("https://zoom.us/j/1".to_string());
        }
        store.insert(&c, 1, 0);
    };
    add("video in 3", now + 180, true);
    add("video in 3 and a bit", now + 181, true);
    add("plain in 1", now + 60, false);
    add("plain in 1 and a bit", now + 61, false);
    add("alerted", now, false);
    add("dismissed", now, false);
    add("long past", 0, false);
    store.mark_alerted(5);
    store.dismiss(6);
    let found: Vec<String> = store.get_needing_alert(now).into_iter().map(|e| e.external_id).collect();
    assert_eq!(
        found,
        vec!["long past".to_string(), "plain in 1".to_string(), "video in 3".to_string()]
    );
}

const FEED: &str = "BEGIN:VCALENDAR\r\nBEGIN:VEVENT\r\nUID:a\r\nSUMMARY:A\r\nDTSTART:20230101T120000Z\r\nEND:VEVENT\r\nBEGIN:VEVENT\r\nUID:b\r\nSUMMARY:B\r\nDTSTART:20230102T120000Z\r\nEND:VEVENT\r\nEND:VCALENDAR\r\n";

#[test]
fn a_feed_text_is_normalised_and_reconciled() {
    let mut store = EventStore::new();
    assert_eq!(sync_feed_text(&mut store, 3, FEED, "proton-", 9).unwrap(), (2, 0));
    assert_eq!(sync_feed_text(&mut store, 3, FEED, "proton-", 10).unwrap(), (0, 0));
    let changed = FEED.replace("SUMMARY:B", "SUMMARY:B2");
    assert_eq!(sync_feed_text(&mut store, 3, &changed, "proton-", 11).unwrap(), (0, 1));
    assert_eq!(store.get(1).title, "B2");
    assert_eq!(store.get(1).updated_at, 11);
    assert_eq!(store.get(0).updated_at, 9);
}

#[test]
fn sync_errors_have_their_messages() {
    assert_eq!(SyncError::StoreFull.message(), "Event store is full");
    assert_eq!(SyncError::Parse("Failed to parse ICS data: x".to_string()).message(), "Failed to parse ICS data: x");
    assert_eq!(
        SyncError::UnknownProvider("Unknown provider: o".to_string()).message(),
        "Unknown provider: o"
    );
}

#[test]
fn an_account_is_synchronised_through_its_services_breaker() {
    let sleep = |_ms: u64| {};
    let down = |_url: &str| HttpAttempt::RequestFailed("Authentication failed".to_string());
    let up = |_url: &str| HttpAttempt::Body(FEED.to_string());
    let mut google = Account::new_google("g".to_string(), "https://example.com/g.ics".to_string(), None);
    google.id = Some(1);
    let mut store = EventStore::new();
    let mut registry = CircuitBreakerRegistry::new();
    for _ in 0..3 {
        let r = sync_account(&google, &mut store, &mut registry, 0, 0, &down, &sleep, &clock);
        assert!(matches!(r, Err(SyncError::Fetch(_))));
    }
    assert_eq!(registry.get_breaker("google_calendar").get_state(), CircuitState::Open);
    // The open circuit rejects the call although the service is up again.
    let r = sync_account(&google, &mut store, &mut registry, 0, 30_000, &up, &sleep, &clock);
    assert_eq!(r.unwrap_err().message(), "Circuit breaker is open");
    assert_eq!(test_connection(&google, &mut registry, 30_000, &up, &sleep, &clock).unwrap(), false);
    // After the timeout the call is admitted again.
    let r = sync_account(&google, &mut store, &mut registry, 0, 30_001, &up, &sleep, &clock).unwrap();
    assert_eq!((r.events_added, r.events_updated), (2, 0));
    assert_eq!(registry.get_breaker("google_calendar").get_state(), CircuitState::HalfOpen);
    assert_eq!(test_connection(&google, &mut registry, 30_002, &up, &sleep, &clock).unwrap(), true);
    assert_eq!(registry.get_breaker("google_calendar").get_state(), CircuitState::Closed);

    let mut unknown = Account::new_proton("x".to_string(), "https://example.com/x.ics".to_string());
    unknown.provider = "outlook".to_string();
    let r = sync_account(&unknown, &mut store, &mut registry, 0, 0, &up, &sleep, &clock);
    assert_eq!(r.unwrap_err().message(), "Unknown provider: outlook");
    assert!(test_connection(&unknown, &mut registry, 0, &up, &sleep, &clock).is_err());
    assert_eq!(registry.get_all_stats().len(), 1);
}

#[test]
fn two_failed_syncs_are_counted_by_the_services_breaker() {
    let sleep = |_ms: u64| {};
    let down = |_url: &str| HttpAttempt::RequestFailed("Authentication failed".to_string());
    let readings = std::cell::Cell::new(100u64);
    let ticking = || {
        readings.set(readings.get() + 10);
        readings.get()
    };
    let mut google = Account::new_google("g".to_string(), "https://example.com/g.ics".to_string(), None);
    google.id = Some(1);
    let mut store = EventStore::new();
    let mut registry = CircuitBreakerRegistry::new();
    for _ in 0..2 {
        let r = sync_account(&google, &mut store, &mut registry, 0, 100, &down, &sleep, &ticking);
        assert!(matches!(r, Err(SyncError::Fetch(_))));
    }
    let stats = registry.get_breaker("google_calendar").get_stats();
    assert_eq!(stats.state, CircuitState::Closed);
    assert_eq!(stats.failure_count, 2);
    assert_eq!(stats.last_failure_time, Some(120));
    assert_eq!(store.len(), 0);
    // The other service's breaker has seen nothing.
    assert_eq!(registry.get_breaker("proton_calendar").get_stats().failure_count, 0);
}

#[test]
fn candidates_are_reconciled_on_a_table_with_room() {
    let mut store = EventStore::new();
    let candidates = vec![candidate("a", "A"), candidate("b", "B"), candidate("a", "A2")];
    assert_eq!(try_reconcile(&mut store, 1, &candidates, 10), Some((2, 1)));
    assert_eq!(store.len(), 2);
    assert_eq!(store.get(0).title, "A2");
    assert_eq!(store.get(0).created_at, 10);
    assert_eq!(sync_candidates(&mut store, 1, &candidates, 20).unwrap(), (0, 2));
    assert_eq!(store.get(0).title, "A2");
    assert_eq!(sync_candidates(&mut store, 2, &candidates, 30).unwrap(), (2, 1));
    assert_eq!(store.len(), 4);
    assert_eq!(store.get(2).account_id, 2);
    assert_eq!(try_reconcile(&mut store, 1, &Vec::new(), 40), Some((0, 0)));
}

#[test]
fn a_copy_of_the_table_holds_the_same_rows() {
    let mut store = EventStore::new();
    assert_eq!(reconcile(&mut store, 1, &vec![candidate("a", "A"), candidate("b", "B")], 10), (2, 0));
    let copy = store.duplicate();
    assert_eq!(copy.len(), 2);
    assert_eq!(format!("{:?}", copy.get(1)), format!("{:?}", store.get(1)));
    assert_eq!(store_event(&mut store, &candidate("b", "B2"), 1, 11), StoreAction::Update);
    assert_eq!(copy.get(1).title, "B");
    assert_eq!(store.get(1).title, "B2");
}
