use openchime::calendar::common::{HttpAttempt, IcalDateTime};
use openchime::calendar::google::{
    convert_google_event, convert_ics_event_to_google, extract_video_info, google_candidates,
    parse_ics_to_google_events, sync_google_calendar, sync_google_ics, test_connection,
    GoogleCalendarEvent, GoogleEventTime,
};
use openchime::calendar::ics::IcsEvent;
use openchime::calendar::SyncError;
use openchime::database::events::EventStore;
use openchime::models::Account;
use openchime::utils::circuit_breaker::{CircuitBreaker, CircuitBreakerConfig, CircuitState};
use std::collections::hash_map::DefaultHasher;
use std::hash::{Hash, Hasher};

#[test]
fn test_extract_video_info_google_meet() {
    let desc = Some("Join with Google Meet: https://meet.google.com/abc-defg-hij".to_string());
    let (link, platform) = extract_video_info(&desc);
    assert_eq!(link, Some("https://meet.google.com/abc-defg-hij".to_string()));
    assert_eq!(platform, Some("Google Meet".to_string()));
}

#[test]
fn test_extract_video_info_zoom() {
    let desc = Some("Zoom Meeting: https://zoom.us/j/123456789".to_string());
    let (link, platform) = extract_video_info(&desc);
    assert_eq!(link, Some("https://zoom.us/j/123456789".to_string()));
    assert_eq!(platform, Some("Zoom".to_string()));
}

#[test]
fn test_extract_video_info_teams() {
    let desc = Some("Microsoft Teams Meeting\nhttps://teams.microsoft.com/l/meetup-join/...".to_string());
    let (link, platform) = extract_video_info(&desc);
    assert_eq!(link, Some("https://teams.microsoft.com/l/meetup-join/...".to_string()));
    assert_eq!(platform, Some("Teams".to_string()));
}

#[test]
fn test_extract_video_info_none() {
    let desc = Some("Regular meeting".to_string());
    let (link, platform) = extract_video_info(&desc);
    assert_eq!(link, None);
    assert_eq!(platform, None);
}

#[test]
fn test_extract_video_info_empty() {
    let desc = None;
    let (link, platform) = extract_video_info(&desc);
    assert_eq!(link, None);
    assert_eq!(platform, None);
}

#[test]
fn extract_video_info_gives_the_first_shape_that_matches() {
    // The shapes are tried in their order, wherever in the text they match.
    let two = Some("https://teams.live.com/x or https://meet.google.com/abc-def later".to_string());
    assert_eq!(
        extract_video_info(&two),
        (Some("https://meet.google.com/abc-def".to_string()), Some("Google Meet".to_string()))
    );
    let webex = Some("Room: https://acme.webex.com/join/pat today".to_string());
    assert_eq!(
        extract_video_info(&webex),
        (Some("https://acme.webex.com/join/pat today".to_string()), Some("Webex".to_string()))
    );
    let bare = Some("dial zoom.us/j/77 now".to_string());
    assert_eq!(
        extract_video_info(&bare),
        (Some("zoom.us/j/77".to_string()), Some("Zoom".to_string()))
    );
}

#[test]
fn extract_video_info_wants_a_link_not_a_host_name() {
    let host = Some("see hangouts.google.com/x".to_string());
    assert_eq!(extract_video_info(&host), (None, None));
    let named = Some("We use Microsoft Teams".to_string());
    assert_eq!(extract_video_info(&named), (None, None));
}

fn google_event(start: Option<i64>, end: Option<i64>) -> GoogleCalendarEvent {
    GoogleCalendarEvent {
        id: "g-1".to_string(),
        summary: None,
        description: Some("Call at https://zoom.us/j/987654 today".to_string()),
        start: GoogleEventTime { date_time: start, date: None },
        end: GoogleEventTime { date_time: end, date: None },
        hangout_link: None,
    }
}

#[test]
fn google_event_without_start_is_refused() {
    let r = convert_google_event(&google_event(None, Some(5)), 3, 100);
    assert_eq!(r.unwrap_err(), "Event missing start time");
}

#[test]
fn google_event_becomes_a_candidate() {
    let r = convert_google_event(&google_event(Some(1000), None), 3, 100).unwrap();
    assert_eq!(r.id, None);
    assert_eq!(r.external_id, "g-1");
    assert_eq!(r.account_id, 3);
    assert_eq!(r.title, "Untitled Event");
    assert_eq!(r.start_time, 1000);
    assert_eq!(r.end_time, 4600);
    assert_eq!(r.video_link, Some("https://zoom.us/j/987654".to_string()));
    assert_eq!(r.video_platform, Some("Zoom".to_string()));
    assert_eq!(r.snooze_count, 0);
    assert!(!r.has_alerted);
    assert_eq!(r.last_alert_threshold, None);
    assert!(!r.is_dismissed);
    assert_eq!(r.created_at, 100);
    assert_eq!(r.updated_at, 100);
}

#[test]
fn google_event_keeps_its_own_link_and_end() {
    let mut event = google_event(Some(1000), Some(2000));
    event.hangout_link = Some("https://meet.google.com/abc-defg-hij".to_string());
    event.summary = Some("Standup".to_string());
    let r = convert_google_event(&event, 1, 0).unwrap();
    assert_eq!(r.title, "Standup");
    assert_eq!(r.end_time, 2000);
    assert_eq!(r.video_link, Some("https://meet.google.com/abc-defg-hij".to_string()));
    assert_eq!(r.video_platform, Some("Google Meet".to_string()));
}

#[test]
fn google_candidates_pass_over_events_without_start() {
    let mut second = google_event(Some(7), None);
    second.id = "g-2".to_string();
    let mut third = google_event(Some(9), None);
    third.id = "g-3".to_string();
    let events = vec![google_event(None, None), second, third];
    let candidates = google_candidates(&events, 4, 0);
    assert_eq!(candidates.len(), 2);
    assert_eq!(candidates[0].external_id, "g-2");
    assert_eq!(candidates[1].external_id, "g-3");
}

#[test]
fn ics_event_without_uid_gets_a_hashed_google_id() {
    let entry = IcsEvent {
        uid: None,
        summary: Some("Planning".to_string()),
        description: Some("Regular meeting".to_string()),
        start: Some(IcalDateTime::Utc(1_700_000_000)),
        end: None,
    };
    let event = convert_ics_event_to_google(&entry, 5);
    let mut hasher = DefaultHasher::new();
    format!("{}{}", "Planning", 1_700_000_000i64).hash(&mut hasher);
    assert_eq!(event.id, format!("ics_{:x}", hasher.finish()));
    assert_eq!(event.summary, Some("Planning".to_string()));
    assert_eq!(event.start.date_time, Some(1_700_000_000));
    assert_eq!(event.end.date_time, None);
    assert_eq!(event.hangout_link, None);
    let again = convert_ics_event_to_google(&entry, 999);
    assert_eq!(again.id, event.id);
}

#[test]
fn ics_event_with_a_link_in_its_description_carries_the_link() {
    let entry = IcsEvent {
        uid: Some("u-1".to_string()),
        summary: None,
        description: Some("Join: https://meet.google.com/abc-defg-hij".to_string()),
        start: None,
        end: None,
    };
    let event = convert_ics_event_to_google(&entry, 5);
    assert_eq!(event.id, "u-1");
    assert_eq!(event.hangout_link, Some("https://meet.google.com/abc-defg-hij".to_string()));
    assert_eq!(event.start.date_time, None);
}

#[test]
fn html_pages_hold_no_google_events() {
    let r = parse_ics_to_google_events("  <!doctype html><html></html>", 0).unwrap();
    assert!(r.is_empty());
    let r = parse_ics_to_google_events("<html><body>Sign in</body></html>", 0).unwrap();
    assert!(r.is_empty());
}

#[test]
fn google_events_are_read_from_a_feed() {
    let text = "BEGIN:VCALENDAR\r\nVERSION:2.0\r\nBEGIN:VEVENT\r\nUID:a@x\r\nSUMMARY:One\r\nDTSTART:20230101T120000Z\r\nEND:VEVENT\r\nBEGIN:VEVENT\r\nUID:b@x\r\nSUMMARY:Two\r\nEND:VEVENT\r\nEND:VCALENDAR\r\n";
    let events = parse_ics_to_google_events(text, 0).unwrap();
    assert_eq!(events.len(), 2);
    assert_eq!(events[0].id, "a@x");
    assert_eq!(events[0].start.date_time, Some(1672574400));
    assert_eq!(events[1].id, "b@x");
    assert_eq!(events[1].start.date_time, None);
    let candidates = google_candidates(&events, 1, 0);
    assert_eq!(candidates.len(), 1);
    assert_eq!(candidates[0].title, "One");
}

#[test]
fn a_broken_google_feed_is_refused() {
    let message = parse_ics_to_google_events("BEGIN:VCALENDAR\nEND:VEVENT\n", 0).unwrap_err();
    assert!(message.starts_with("Failed to parse ICS: "));
}

const GOOGLE_FEED: &str = "BEGIN:VCALENDAR\r\nVERSION:2.0\r\nBEGIN:VEVENT\r\nUID:a@x\r\nSUMMARY:One\r\nDESCRIPTION:Join https://zoom.us/j/123456789 today\r\nDTSTART:20230101T120000Z\r\nDTEND:20230101T123000Z\r\nEND:VEVENT\r\nBEGIN:VEVENT\r\nSUMMARY:No Uid\r\nDTSTART:20230102T120000Z\r\nEND:VEVENT\r\nBEGIN:VEVENT\r\nUID:b@x\r\nSUMMARY:No start\r\nEND:VEVENT\r\nEND:VCALENDAR\r\n";

fn google_account() -> Account {
    let mut account = Account::new_google("me".to_string(), "https://example.com/g.ics".to_string(), None);
    account.id = Some(4);
    account
}

fn google_breaker() -> CircuitBreaker {
    CircuitBreaker::new(CircuitBreakerConfig { failure_threshold: 3, success_threshold: 2, timeout_ms: 30_000 })
}

fn rows_of(store: &EventStore) -> Vec<String> {
    (0..store.len()).map(|i| format!("{:?}", store.get(i))).collect()
}

#[test]
fn google_sync_reconciles_the_events_with_a_start() {
    let get = |_url: &str| HttpAttempt::Body(GOOGLE_FEED.to_string());
    let sleep = |_ms: u64| {};
    let clock = || 9u64;
    let mut store = EventStore::new();
    let mut breaker = google_breaker();
    let result =
        sync_google_calendar(&google_account(), &mut store, &mut breaker, 50, 0, &get, &sleep, &clock).unwrap();
    assert!(result.success);
    assert_eq!(result.account_id, 4);
    assert_eq!((result.events_added, result.events_updated), (2, 0));
    assert_eq!(result.sync_time, 50);
    assert_eq!(store.len(), 2);
    assert_eq!(store.get(0).external_id, "a@x");
    assert_eq!(store.get(0).account_id, 4);
    assert_eq!(store.get(0).start_time, 1672574400);
    assert_eq!(store.get(0).end_time, 1672576200);
    assert_eq!(store.get(0).video_link, Some("https://zoom.us/j/123456789".to_string()));
    assert_eq!(store.get(0).video_platform, Some("Zoom".to_string()));
    assert_eq!(store.get(1).title, "No Uid");
    assert_eq!(store.get(1).end_time, store.get(1).start_time + 3600);
    assert!(store.get(1).external_id.starts_with("ics_"));
    assert_eq!(breaker.get_stats().failure_count, 0);
}

#[test]
fn a_second_google_sync_of_the_same_feed_changes_nothing() {
    let get = |_url: &str| HttpAttempt::Body(GOOGLE_FEED.to_string());
    let sleep = |_ms: u64| {};
    let clock = || 9u64;
    let mut store = EventStore::new();
    let mut breaker = google_breaker();
    let first =
        sync_google_calendar(&google_account(), &mut store, &mut breaker, 50, 0, &get, &sleep, &clock).unwrap();
    assert_eq!((first.events_added, first.events_updated), (2, 0));
    let rows = rows_of(&store);
    let second =
        sync_google_calendar(&google_account(), &mut store, &mut breaker, 900, 7, &get, &sleep, &clock).unwrap();
    assert!(second.success);
    assert_eq!((second.events_added, second.events_updated), (0, 0));
    assert_eq!(second.sync_time, 900);
    assert_eq!(rows_of(&store), rows);
}

#[test]
fn a_failed_google_fetch_is_counted_at_the_clocks_reading() {
    let get = |_url: &str| HttpAttempt::RequestFailed("Authentication failed".to_string());
    let sleep = |_ms: u64| {};
    let clock = || 1234u64;
    let mut store = EventStore::new();
    let mut breaker = google_breaker();
    let r = sync_google_calendar(&google_account(), &mut store, &mut breaker, 50, 1000, &get, &sleep, &clock);
    match r {
        Err(SyncError::Fetch(e)) => assert_eq!(e.message(), "Request failed: Authentication failed"),
        other => panic!("unexpected result {:?}", other),
    }
    assert_eq!(store.len(), 0);
    let stats = breaker.get_stats();
    assert_eq!(stats.state, CircuitState::Closed);
    assert_eq!(stats.failure_count, 1);
    assert_eq!(stats.last_failure_time, Some(1234));
    assert!(!test_connection(&google_account(), &mut breaker, 1300, &get, &sleep, &clock));
    assert_eq!(breaker.get_stats().failure_count, 2);
}

#[test]
fn google_events_are_fetched_and_read() {
    let get = |_url: &str| HttpAttempt::Body(GOOGLE_FEED.to_string());
    let sleep = |_ms: u64| {};
    let clock = || 9u64;
    let mut breaker = google_breaker();
    let events = sync_google_ics(&google_account(), &mut breaker, 50, 0, &get, &sleep, &clock).unwrap();
    assert_eq!(events.len(), 3);
    assert_eq!(events[0].hangout_link, Some("https://zoom.us/j/123456789".to_string()));
    assert_eq!(events[2].id, "b@x");
    assert_eq!(events[2].start.date_time, None);

    let broken = |_url: &str| HttpAttempt::Body("BEGIN:VCALENDAR\nEND:VEVENT\n".to_string());
    let r = sync_google_ics(&google_account(), &mut breaker, 50, 0, &broken, &sleep, &clock);
    assert!(matches!(r, Err(SyncError::Parse(_))));
    let mut refused = google_account();
    refused.auth_data = "http://example.com/g.ics".to_string();
    let r = sync_google_ics(&refused, &mut breaker, 50, 0, &get, &sleep, &clock);
    assert!(matches!(r, Err(SyncError::Fetch(_))));
    assert_eq!(breaker.get_stats().failure_count, 0);
}
