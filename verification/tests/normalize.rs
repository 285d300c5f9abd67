use chrono::{Local, NaiveDate, TimeZone};
use openchime::calendar::common::IcalDateTime;
use openchime::calendar::ics::read_events;
use openchime::calendar::normalize::{
    build_candidate, fallback_id, hash_text, is_suspiciously_empty, normalize, normalize_event,
};
use std::collections::hash_map::DefaultHasher;
use std::hash::{Hash, Hasher};

const DOCUMENT: &str = "BEGIN:VCALENDAR\r\nVERSION:2.0\r\nBEGIN:VEVENT\r\nUID:utc\r\nSUMMARY:Utc\r\nDESCRIPTION:plain\r\nDTSTART:20230101T120000Z\r\nDTEND:20230101T123000Z\r\nEND:VEVENT\r\nBEGIN:VTODO\r\nUID:todo\r\nSUMMARY:Todo\r\nDTSTART:20230101T120000Z\r\nEND:VTODO\r\nBEGIN:VEVENT\r\nUID:floating\r\nDTSTART:20230101T120000\r\nEND:VEVENT\r\nBEGIN:VEVENT\r\nUID:zoned\r\nDTSTART;TZID=Europe/Berlin:20230701T120000\r\nDTEND;TZID=Nowhere/Land:20230701T130000\r\nEND:VEVENT\r\nBEGIN:VEVENT\r\nUID:allday\r\nDTSTART;VALUE=DATE:20230102\r\nDTEND;VALUE=DATE:20230103\r\nEND:VEVENT\r\nBEGIN:VEVENT\r\nSUMMARY:bare\r\nEND:VEVENT\r\nEND:VCALENDAR\r\n";

fn wall(y: i32, m: u32, d: u32, h: u32, mi: u32) -> i64 {
    NaiveDate::from_ymd_opt(y, m, d).unwrap().and_hms_opt(h, mi, 0).unwrap().and_utc().timestamp()
}

fn local(y: i32, m: u32, d: u32, h: u32, mi: u32) -> Option<i64> {
    let naive = NaiveDate::from_ymd_opt(y, m, d).unwrap().and_hms_opt(h, mi, 0).unwrap();
    Local.from_local_datetime(&naive).single().map(|t| t.timestamp())
}

#[test]
fn the_events_of_a_document_are_read_as_plain_values() {
    let events = read_events(DOCUMENT).unwrap();
    assert_eq!(events.len(), 5);

    assert_eq!(events[0].uid, Some("utc".to_string()));
    assert_eq!(events[0].summary, Some("Utc".to_string()));
    assert_eq!(events[0].description, Some("plain".to_string()));
    assert!(matches!(events[0].start, Some(IcalDateTime::Utc(1672574400))));
    assert!(matches!(events[0].end, Some(IcalDateTime::Utc(1672576200))));

    assert_eq!(events[1].uid, Some("floating".to_string()));
    assert_eq!(events[1].summary, None);
    assert_eq!(events[1].description, None);
    match &events[1].start {
        Some(IcalDateTime::Floating(t)) => assert_eq!(*t, wall(2023, 1, 1, 12, 0)),
        other => panic!("unexpected start {:?}", other),
    }
    assert!(events[1].end.is_none());

    match &events[2].start {
        Some(IcalDateTime::WithTimezone { date_time, tzid }) => {
            assert_eq!(*date_time, wall(2023, 7, 1, 12, 0));
            assert_eq!(tzid, "Europe/Berlin");
        }
        other => panic!("unexpected start {:?}", other),
    }
    match &events[2].end {
        Some(IcalDateTime::WithTimezone { date_time, tzid }) => {
            assert_eq!(*date_time, wall(2023, 7, 1, 13, 0));
            assert_eq!(tzid, "Nowhere/Land");
        }
        other => panic!("unexpected end {:?}", other),
    }

    match &events[3].start {
        Some(IcalDateTime::Date(t)) => assert_eq!(*t, wall(2023, 1, 2, 0, 0)),
        other => panic!("unexpected start {:?}", other),
    }
    match &events[3].end {
        Some(IcalDateTime::Date(t)) => assert_eq!(*t, wall(2023, 1, 3, 0, 0)),
        other => panic!("unexpected end {:?}", other),
    }

    assert_eq!(events[4].uid, None);
    assert_eq!(events[4].summary, Some("bare".to_string()));
    assert!(events[4].start.is_none());
}

#[test]
fn every_kind_of_date_time_is_resolved() {
    let now = 1_700_000_000;
    let candidates = normalize(DOCUMENT, "tag-", now).unwrap();
    assert_eq!(candidates.len(), 5);

    assert_eq!((candidates[0].start_time, candidates[0].end_time), (1672574400, 1672576200));

    let floating = local(2023, 1, 1, 12, 0).unwrap_or(now);
    assert_eq!(candidates[1].start_time, floating);
    assert_eq!(candidates[1].end_time, floating + 3600);

    // Noon in Berlin in July is 10:00 UTC; the unknown zone falls back on this machine's.
    assert_eq!(candidates[2].start_time, 1688205600);
    assert_eq!(candidates[2].end_time, local(2023, 7, 1, 13, 0).unwrap_or(1688205600 + 3600));

    assert_eq!(candidates[3].start_time, local(2023, 1, 2, 0, 0).unwrap_or(now));
    assert_eq!(candidates[3].end_time, local(2023, 1, 3, 0, 0).unwrap());

    assert_eq!(candidates[4].title, "bare");
    assert_eq!(candidates[4].start_time, now);
    assert_eq!(candidates[4].end_time, now + 3600);
    let mut hasher = DefaultHasher::new();
    format!("{}{}", "bare", now).hash(&mut hasher);
    assert_eq!(candidates[4].external_id, format!("tag-{:x}", hasher.finish()));
}

#[test]
fn hashes_are_those_of_the_standard_hasher() {
    for text in ["", "a", "Team Sync1672574400", "żółć-42"] {
        let mut hasher = DefaultHasher::new();
        text.to_string().hash(&mut hasher);
        assert_eq!(hash_text(text), hasher.finish());
    }
    let mut hasher = DefaultHasher::new();
    "Standup-5".to_string().hash(&mut hasher);
    assert_eq!(fallback_id("x_", "Standup", -5), format!("x_{:x}", hasher.finish()));
}

#[test]
fn candidates_are_built_from_resolved_instants() {
    let events = read_events(DOCUMENT).unwrap();
    let c = build_candidate(&events[0], "t-", None, None, 42);
    assert_eq!((c.start_time, c.end_time), (42, 3642));
    let c = build_candidate(&events[0], "t-", Some(7), None, 42);
    assert_eq!((c.start_time, c.end_time), (7, 3607));
    let c = build_candidate(&events[0], "t-", None, Some(9), 42);
    assert_eq!((c.start_time, c.end_time), (42, 9));
    let c = normalize_event(&events[0], "t-", 42);
    assert_eq!((c.start_time, c.end_time, c.created_at), (1672574400, 1672576200, 42));
    assert_eq!(c.description, Some("plain".to_string()));
}

#[test]
fn a_feed_without_events_is_suspicious_unless_it_is_empty() {
    assert!(is_suspiciously_empty("<html>", &Vec::new()));
    assert!(!is_suspiciously_empty("", &Vec::new()));
    let candidates = normalize(DOCUMENT, "t-", 0).unwrap();
    assert!(!is_suspiciously_empty(DOCUMENT, &candidates));
}
