use chrono::{Duration, Utc};
use openchime::alerts::{
    alert_for_threshold, check_alert_thresholds, check_alert_thresholds_at, get_upcoming_events_at,
    is_in_alert_window, is_sync_due, is_threshold_enabled, monitor_cycle, notifications,
    run_alert_tick, should_trigger_alert_at, summarize_sync, trigger_manual_alert, MonitorEvent,
    THRESHOLDS,
};
use openchime::calendar::common::HttpAttempt;
use openchime::database::events::EventStore;
use openchime::models::{Account, AlertInfo, AlertType, CalendarEvent, Settings};
use openchime::utils::circuit_breaker::CircuitBreakerRegistry;
use openchime::{get_upcoming_events, should_trigger_alert, sync_calendars};
use std::cell::Cell;

fn clock() -> u64 {
    0
}

fn create_test_event(minutes_from_now: i64, has_video: bool) -> CalendarEvent {
    let now = Utc::now();
    CalendarEvent {
        id: Some(1),
        external_id: "test-event".to_string(),
        account_id: 1,
        title: "Test Meeting".to_string(),
        description: Some("Test description".to_string()),
        start_time: (now + Duration::minutes(minutes_from_now)).timestamp(),
        end_time: (now + Duration::minutes(minutes_from_now + 60)).timestamp(),
        video_link: if has_video { Some("https://zoom.us/test".to_string()) } else { None },
        video_platform: if has_video { Some("Zoom".to_string()) } else { None },
        snooze_count: 0,
        has_alerted: false,
        last_alert_threshold: None,
        is_dismissed: false,
        created_at: now.timestamp(),
        updated_at: now.timestamp(),
    }
}

fn event_starting_at(start_time: i64, external_id: &str) -> CalendarEvent {
    CalendarEvent {
        id: None,
        external_id: external_id.to_string(),
        account_id: 1,
        title: "Meeting".to_string(),
        description: None,
        start_time,
        end_time: start_time + 3600,
        video_link: None,
        video_platform: None,
        snooze_count: 0,
        has_alerted: false,
        last_alert_threshold: None,
        is_dismissed: false,
        created_at: 0,
        updated_at: 0,
    }
}

fn settings(a30: bool, a10: bool, a5: bool, a1: bool, start: bool) -> Settings {
    let mut s = Settings::default();
    s.alert_30m = a30;
    s.alert_10m = a10;
    s.alert_5m = a5;
    s.alert_1m = a1;
    s.alert_default = start;
    s
}

#[test]
fn test_should_trigger_alert_video_meeting() {
    let event_2_min_away = create_test_event(2, true);
    let event_3_min_away = create_test_event(3, true);
    let event_5_min_away = create_test_event(5, true);
    let event_past = create_test_event(-1, true);

    assert!(should_trigger_alert(&event_2_min_away));
    assert!(should_trigger_alert(&event_3_min_away));
    assert!(!should_trigger_alert(&event_5_min_away));
    assert!(!should_trigger_alert(&event_past));
}

#[test]
fn test_should_trigger_alert_regular_meeting() {
    let event_30_sec_away = create_test_event(0, false);
    let event_1_min_away = create_test_event(1, false);
    let event_3_min_away = create_test_event(3, false);
    let event_5_min_away = create_test_event(5, false);
    let event_past = create_test_event(-1, false);

    assert!(should_trigger_alert(&event_30_sec_away));
    assert!(should_trigger_alert(&event_1_min_away));
    assert!(should_trigger_alert(&event_3_min_away));
    assert!(!should_trigger_alert(&event_5_min_away));
    assert!(!should_trigger_alert(&event_past));
}

#[test]
fn the_three_minute_test_counts_whole_minutes() {
    let event = event_starting_at(10_000, "e");
    assert!(should_trigger_alert_at(&event, 10_000));
    assert!(should_trigger_alert_at(&event, 10_000 - 239));
    assert!(!should_trigger_alert_at(&event, 10_000 - 240));
    assert!(should_trigger_alert_at(&event, 10_000 + 59));
    assert!(!should_trigger_alert_at(&event, 10_000 + 60));
}

#[test]
fn mod_test_get_upcoming_events_empty() {
    let store = EventStore::new();
    let events = get_upcoming_events(&store);
    assert!(events.is_empty());
}

#[test]
fn test_trigger_manual_alert_event_not_found() {
    let store = EventStore::new();
    let result = trigger_manual_alert(999, &store);
    assert!(result.is_err());
    assert!(result.unwrap_err().contains("Event not found"));
}

#[test]
fn manual_alerts_ignore_the_thresholds() {
    let mut store = EventStore::new();
    let mut event = event_starting_at(1_000_000, "a");
    event.video_link = Some("https://zoom.us/j/1".to_string());
    store.insert(&event, 1, 0);
    store.insert(&event_starting_at(5, "b"), 1, 0);
    store.record_threshold(0, 0);
    let alert = trigger_manual_alert(1, &store).unwrap();
    assert_eq!(alert.alert_type, AlertType::VideoMeeting);
    assert_eq!(alert.event.external_id, "a");
    let alert = trigger_manual_alert(2, &store).unwrap();
    assert_eq!(alert.alert_type, AlertType::Meeting);
    assert_eq!(store.get(0).last_alert_threshold, Some(0));
    assert_eq!(trigger_manual_alert(3, &store).unwrap_err(), "Event not found: 3");
    assert_eq!(trigger_manual_alert(0, &store).unwrap_err(), "Event not found: 0");
    assert_eq!(trigger_manual_alert(-4, &store).unwrap_err(), "Event not found: -4");
}

#[test]
fn test_alert_info_creation() {
    let event = create_test_event(5, true);
    let alert_info = AlertInfo::new(event.clone());

    assert!(matches!(alert_info.alert_type, AlertType::VideoMeeting));
    assert!(
        alert_info.minutes_remaining >= 4 && alert_info.minutes_remaining <= 5,
        "Expected ~5 minutes, got {}",
        alert_info.minutes_remaining
    );
    assert_eq!(alert_info.event.title, "Test Meeting");
}

#[test]
fn test_alert_info_regular_meeting() {
    let event = create_test_event(2, false);
    let alert_info = AlertInfo::new(event.clone());

    assert!(matches!(alert_info.alert_type, AlertType::Meeting));
    let minutes = alert_info.minutes_remaining;
    assert!(minutes >= 1 && minutes <= 3, "Expected ~2 minutes, got {}", minutes);
}

#[test]
fn test_alert_info_edge_cases() {
    let now = Utc::now();

    let video_event_at_threshold = CalendarEvent {
        id: Some(1),
        external_id: "video-threshold".to_string(),
        account_id: 1,
        title: "Video Meeting at Threshold".to_string(),
        description: None,
        start_time: (now + Duration::minutes(3)).timestamp(),
        end_time: (now + Duration::minutes(63)).timestamp(),
        video_link: Some("https://zoom.us/test".to_string()),
        video_platform: Some("Zoom".to_string()),
        snooze_count: 0,
        has_alerted: false,
        last_alert_threshold: None,
        is_dismissed: false,
        created_at: now.timestamp(),
        updated_at: now.timestamp(),
    };

    let alert_info = AlertInfo::new(video_event_at_threshold.clone());
    assert!(matches!(alert_info.alert_type, openchime::models::AlertType::VideoMeeting));
    assert!(
        alert_info.minutes_remaining >= 2 && alert_info.minutes_remaining <= 3,
        "Expected ~3 minutes, got {}",
        alert_info.minutes_remaining
    );

    let regular_event_at_threshold = CalendarEvent {
        video_link: None,
        start_time: (now + Duration::minutes(1)).timestamp(),
        ..video_event_at_threshold.clone()
    };

    let alert_info = AlertInfo::new(regular_event_at_threshold);
    assert!(matches!(alert_info.alert_type, openchime::models::AlertType::Meeting));
    assert!(
        alert_info.minutes_remaining >= 0 && alert_info.minutes_remaining <= 1,
        "Expected ~1 minute, got {}",
        alert_info.minutes_remaining
    );
}

#[test]
fn test_alert_timing_logic() {
    let test_cases = vec![
        (5, true, false),
        (3, true, true),
        (2, true, true),
        (1, false, true),
        (0, false, true),
        (-1, true, false),
    ];

    for (minutes_offset, has_video, should_alert) in test_cases {
        let event = create_test_event(minutes_offset, has_video);
        let alerts_should_trigger = openchime::should_trigger_alert(&event);

        assert_eq!(
            alerts_should_trigger, should_alert,
            "Event at {} minutes with video={} should alert={}",
            minutes_offset, has_video, should_alert
        );
    }
}

#[test]
fn threshold_grace_window() {
    // Only the 30-minute and the start alert are on; the event starts in 3 minutes.
    let s = settings(true, false, false, false, true);
    let start = 1_000_000;
    let event = event_starting_at(start, "e");
    assert_eq!(check_alert_thresholds_at(&event, &s, start - 180), None);
    assert_eq!(check_alert_thresholds_at(&event, &s, start - 60), None);
    // The start alert fires once the minutes fall into -5 < m <= 0.
    assert_eq!(check_alert_thresholds_at(&event, &s, start - 59), Some((0, AlertType::Meeting)));
    assert_eq!(check_alert_thresholds_at(&event, &s, start), Some((0, AlertType::Meeting)));
    assert_eq!(check_alert_thresholds_at(&event, &s, start + 299), Some((0, AlertType::Meeting)));
    assert_eq!(check_alert_thresholds_at(&event, &s, start + 300), None);
    // Once it has fired, it does not fire again.
    let mut fired = event.clone();
    fired.last_alert_threshold = Some(0);
    assert_eq!(check_alert_thresholds_at(&fired, &s, start), None);
}

#[test]
fn each_threshold_fires_in_its_window() {
    let s = settings(true, true, true, true, true);
    let start = 1_000_000;
    let mut event = event_starting_at(start, "e");
    event.video_link = Some("https://zoom.us/j/1".to_string());
    let at = |minutes: i64| check_alert_thresholds_at(&event, &s, start - minutes * 60);
    assert_eq!(at(31), None);
    assert_eq!(at(30), Some((30, AlertType::Warning30m)));
    assert_eq!(at(26), Some((30, AlertType::Warning30m)));
    assert_eq!(at(25), None);
    assert_eq!(at(11), None);
    assert_eq!(at(10), Some((10, AlertType::Warning10m)));
    assert_eq!(at(6), Some((10, AlertType::Warning10m)));
    assert_eq!(at(5), Some((5, AlertType::Warning5m)));
    assert_eq!(at(2), Some((5, AlertType::Warning5m)));
    assert_eq!(at(1), Some((5, AlertType::Warning5m)));
    assert_eq!(at(0), Some((1, AlertType::Warning1m)));
    assert_eq!(at(-3), Some((1, AlertType::Warning1m)));
    assert_eq!(at(-4), Some((0, AlertType::VideoMeeting)));
    assert_eq!(at(-5), None);

    event.last_alert_threshold = Some(5);
    let at = |minutes: i64| check_alert_thresholds_at(&event, &s, start - minutes * 60);
    assert_eq!(at(8), None);
    assert_eq!(at(3), None);
    assert_eq!(at(1), Some((1, AlertType::Warning1m)));
    assert_eq!(at(0), Some((1, AlertType::Warning1m)));
}

#[test]
fn thresholds_follow_the_settings() {
    let s = settings(false, true, false, true, false);
    assert!(!is_threshold_enabled(&s, 30));
    assert!(is_threshold_enabled(&s, 10));
    assert!(!is_threshold_enabled(&s, 5));
    assert!(is_threshold_enabled(&s, 1));
    assert!(!is_threshold_enabled(&s, 0));
    assert!(!is_threshold_enabled(&s, 7));
    assert_eq!(THRESHOLDS, [30, 10, 5, 1, 0]);
    assert_eq!(alert_for_threshold(30, true), AlertType::Warning30m);
    assert_eq!(alert_for_threshold(10, true), AlertType::Warning10m);
    assert_eq!(alert_for_threshold(5, false), AlertType::Warning5m);
    assert_eq!(alert_for_threshold(1, false), AlertType::Warning1m);
    assert_eq!(alert_for_threshold(0, true), AlertType::VideoMeeting);
    assert_eq!(alert_for_threshold(0, false), AlertType::Meeting);
    let event = create_test_event(5, false);
    let due = check_alert_thresholds(&event, &Settings::default());
    assert_eq!(due, Some((5, AlertType::Warning5m)));
}

#[test]
fn ticks_record_thresholds_in_descending_order() {
    let s = settings(true, true, true, true, true);
    let start = 100_000;
    let mut store = EventStore::new();
    store.insert(&event_starting_at(start, "e"), 1, 0);
    let mut recorded = Vec::new();
    let mut fired = Vec::new();
    let mut now = start - 40 * 60;
    while now <= start + 10 * 60 {
        for alert in run_alert_tick(&mut store, &s, now) {
            fired.push(alert.threshold);
        }
        if let Some(t) = store.get(0).last_alert_threshold {
            if recorded.last() != Some(&t) {
                recorded.push(t);
            }
        }
        now += 30;
    }
    assert_eq!(fired, vec![30, 10, 5, 1, 0]);
    assert_eq!(recorded, vec![30, 10, 5, 1, 0]);
}

#[test]
fn a_tick_fires_at_most_one_threshold_per_event() {
    let s = settings(true, true, true, true, true);
    let mut store = EventStore::new();
    store.insert(&event_starting_at(10_000, "soon"), 1, 0);
    store.insert(&event_starting_at(10_000 + 1800, "later"), 1, 0);
    let mut dismissed = event_starting_at(10_000, "dismissed");
    dismissed.title = "Dismissed".to_string();
    store.insert(&dismissed, 1, 0);
    store.dismiss(3);
    store.insert(&event_starting_at(10_000 + 3601, "beyond the window"), 1, 0);
    store.insert(&event_starting_at(10_000 - 301, "before the window"), 1, 0);

    let alerts = run_alert_tick(&mut store, &s, 10_000);
    assert_eq!(alerts.len(), 2);
    assert_eq!(alerts[0].event.external_id, "soon");
    assert_eq!(alerts[0].event.last_alert_threshold, None);
    assert_eq!((alerts[0].threshold, alerts[0].alert_type), (1, AlertType::Warning1m));
    assert_eq!(alerts[1].event.external_id, "later");
    assert_eq!((alerts[1].threshold, alerts[1].alert_type), (30, AlertType::Warning30m));
    assert_eq!(store.get(0).last_alert_threshold, Some(1));
    assert_eq!(store.get(1).last_alert_threshold, Some(30));
    assert_eq!(store.get(2).last_alert_threshold, None);
    assert_eq!(store.get(3).last_alert_threshold, None);
    assert_eq!(store.get(4).last_alert_threshold, None);

    let alerts = run_alert_tick(&mut store, &s, 10_000);
    assert_eq!(alerts.len(), 1);
    assert_eq!((alerts[0].event.external_id.as_str(), alerts[0].threshold), ("soon", 0));
    assert!(run_alert_tick(&mut store, &s, 10_000).is_empty());
}

#[test]
fn the_window_reaches_five_minutes_back_and_an_hour_ahead() {
    assert!(is_in_alert_window(1000, 1000));
    assert!(is_in_alert_window(700, 1000));
    assert!(!is_in_alert_window(699, 1000));
    assert!(is_in_alert_window(4600, 1000));
    assert!(!is_in_alert_window(4601, 1000));
    assert!(!is_in_alert_window(i64::MIN, i64::MAX));
    assert!(is_in_alert_window(i64::MAX, i64::MAX));
    let mut store = EventStore::new();
    store.insert(&event_starting_at(699, "a"), 1, 0);
    store.insert(&event_starting_at(4600, "c"), 1, 0);
    store.insert(&event_starting_at(700, "b"), 1, 0);
    store.insert(&event_starting_at(4601, "d"), 1, 0);
    let events = get_upcoming_events_at(&store, 1000);
    assert_eq!(events.len(), 2);
    assert_eq!(events[0].external_id, "b");
    assert_eq!(events[1].external_id, "c");
}

#[test]
fn a_sync_is_due_after_five_minutes() {
    assert!(!is_sync_due(1299, 1000));
    assert!(is_sync_due(1300, 1000));
    assert!(!is_sync_due(1000, 2000));
    assert!(is_sync_due(i64::MAX, i64::MIN));
}

#[test]
fn a_sync_fails_only_if_every_account_failed() {
    assert_eq!(summarize_sync(&vec![]), Ok((0, 0)));
    assert_eq!(summarize_sync(&vec![None]), Err("Failed to sync any accounts".to_string()));
    assert_eq!(summarize_sync(&vec![None, None]), Err("Failed to sync any accounts".to_string()));
    assert_eq!(summarize_sync(&vec![None, Some((2, 1)), None, Some((3, 4))]), Ok((5, 5)));
    assert_eq!(summarize_sync(&vec![Some((0, 0))]), Ok((0, 0)));
    assert_eq!(summarize_sync(&vec![Some((usize::MAX, 1)), Some((1, 1))]), Ok((usize::MAX, 2)));
}

const FEED_A: &str = "BEGIN:VCALENDAR\r\nBEGIN:VEVENT\r\nUID:a\r\nSUMMARY:A\r\nDTSTART:20230101T120000Z\r\nEND:VEVENT\r\nEND:VCALENDAR\r\n";

fn account(id: i64, provider: &str, url: &str) -> Account {
    let mut account = Account::new_proton(format!("account {}", id), url.to_string());
    account.provider = provider.to_string();
    account.id = Some(id);
    account
}

#[test]
fn accounts_are_synchronised_independently() {
    let get = |url: &str| {
        if url.contains("good") {
            HttpAttempt::Body(FEED_A.to_string())
        } else {
            HttpAttempt::RequestFailed("Authentication failed".to_string())
        }
    };
    let sleep = |_ms: u64| {};
    let mut accounts = vec![
        account(1, "proton", "https://bad.example.com/a.ics"),
        account(2, "proton", "https://good.example.com/a.ics"),
        account(3, "outlook", "https://good.example.com/b.ics"),
        account(4, "google", "https://good.example.com/c.ics"),
    ];
    let mut store = EventStore::new();
    let mut registry = CircuitBreakerRegistry::new();
    let r = sync_calendars(&mut accounts, &mut store, &mut registry, 500, 0, &get, &sleep, &clock);
    assert_eq!(r, Ok((2, 0)));
    assert_eq!(store.len(), 2);
    assert_eq!(store.get(0).account_id, 2);
    assert_eq!(store.get(1).account_id, 4);
    assert_eq!(accounts[0].last_synced_at, None);
    assert_eq!(accounts[1].last_synced_at, Some(500));
    assert_eq!(accounts[2].last_synced_at, None);
    assert_eq!(accounts[3].last_synced_at, Some(500));

    let mut failing = vec![account(1, "proton", "https://bad.example.com/a.ics")];
    let r = sync_calendars(&mut failing, &mut store, &mut registry, 600, 1, &get, &sleep, &clock);
    assert_eq!(r, Err("Failed to sync any accounts".to_string()));
    let mut none: Vec<Account> = Vec::new();
    assert_eq!(sync_calendars(&mut none, &mut store, &mut registry, 600, 1, &get, &sleep, &clock), Ok((0, 0)));
}

#[test]
fn a_cycle_syncs_when_due_and_then_ticks() {
    let requests = Cell::new(0u32);
    let get = |_url: &str| {
        requests.set(requests.get() + 1);
        HttpAttempt::Body(FEED_A.to_string())
    };
    let sleep = |_ms: u64| {};
    let mut accounts = vec![account(1, "proton", "https://good.example.com/a.ics")];
    let mut store = EventStore::new();
    let mut registry = CircuitBreakerRegistry::new();
    let s = Settings::default();
    let start = 1672574400;
    let mut last_sync = start - 1000;

    let now = start - 5 * 60;
    let report =
        monitor_cycle(&mut accounts, &mut store, &mut registry, &s, &mut last_sync, now, 0, &get, &sleep, &clock)
            .unwrap();
    assert_eq!(report.synced, Some((1, 0)));
    assert_eq!(last_sync, now);
    assert_eq!(report.alerts.len(), 1);
    assert_eq!(report.alerts[0].threshold, 5);
    assert_eq!(requests.get(), 1);
    let events = notifications(&report);
    assert_eq!(events.len(), 2);
    assert!(matches!(events[0], MonitorEvent::SyncCompleted { added: 1, updated: 0 }));
    match &events[1] {
        MonitorEvent::AlertTriggered(event) => assert_eq!(event.external_id, "a"),
        other => panic!("unexpected event {:?}", other),
    }

    let report = monitor_cycle(
        &mut accounts, &mut store, &mut registry, &s, &mut last_sync, now + 30, 30_000, &get, &sleep, &clock,
    )
    .unwrap();
    assert_eq!(report.synced, None);
    assert!(report.alerts.is_empty());
    assert_eq!(last_sync, now);
    assert_eq!(requests.get(), 1);
    assert!(notifications(&report).is_empty());
}

#[test]
fn a_cycle_whose_sync_failed_everywhere_reports_the_failure() {
    let get = |_url: &str| HttpAttempt::RequestFailed("Authentication failed".to_string());
    let sleep = |_ms: u64| {};
    let mut accounts = vec![account(1, "proton", "https://good.example.com/a.ics")];
    let mut store = EventStore::new();
    store.insert(&event_starting_at(10_000, "soon"), 1, 0);
    let mut registry = CircuitBreakerRegistry::new();
    let mut last_sync = 0;
    let r = monitor_cycle(
        &mut accounts, &mut store, &mut registry, &Settings::default(), &mut last_sync, 10_000, 0, &get,
        &sleep, &clock,
    );
    assert_eq!(r.err(), Some("Failed to sync any accounts".to_string()));
    assert_eq!(last_sync, 0);
    assert_eq!(store.get(0).last_alert_threshold, None);
}

#[test]
fn test_alert_error_handling() {
    let store = EventStore::new();

    let result = trigger_manual_alert(99999, &store);
    assert!(result.is_err());
    assert!(result.unwrap_err().contains("Event not found"));

    let events = get_upcoming_events(&store);
    assert!(events.is_empty());
}

#[test]
fn test_alert_workflow_integration() {
    let video_event = create_test_event(2, true);
    let regular_event = create_test_event(0, false);

    let video_alert = AlertInfo::new(video_event.clone());
    let regular_alert = AlertInfo::new(regular_event.clone());

    assert!(matches!(video_alert.alert_type, openchime::models::AlertType::VideoMeeting));
    assert!(matches!(regular_alert.alert_type, openchime::models::AlertType::Meeting));

    let mut store = EventStore::new();
    let index = store.insert(&video_event, video_event.account_id, Utc::now().timestamp());
    let event_id = store.get(index).id.unwrap();

    let result = trigger_manual_alert(event_id, &store);
    assert!(result.is_ok());
}
