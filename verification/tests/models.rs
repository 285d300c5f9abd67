use chrono::{Duration, Utc};
use openchime::models::{
    Account, AlertInfo, AlertType, CalendarEvent, CalendarProvider, Settings, SyncResult,
    VideoMeetingInfo,
};

fn event_at(start_time: i64, end_time: i64, video_link: Option<String>, now: i64) -> CalendarEvent {
    CalendarEvent {
        id: None,
        external_id: "test-1".to_string(),
        account_id: 1,
        title: "Video Meeting".to_string(),
        description: None,
        start_time,
        end_time,
        video_platform: video_link.as_ref().map(|_| "Zoom".to_string()),
        video_link,
        snooze_count: 0,
        has_alerted: false,
        last_alert_threshold: None,
        is_dismissed: false,
        created_at: now,
        updated_at: now,
    }
}

#[test]
fn test_calendar_provider_as_str() {
    assert_eq!(CalendarProvider::Google.as_str(), "google");
    assert_eq!(CalendarProvider::Proton.as_str(), "proton");
}

#[test]
fn test_account_new_google() {
    let account = Account::new_google(
        "test@gmail.com".to_string(),
        "auth_data".to_string(),
        Some("refresh_token".to_string()),
    );

    assert_eq!(account.provider, "google");
    assert_eq!(account.account_name, "test@gmail.com");
    assert_eq!(account.auth_data, "auth_data");
    assert_eq!(account.refresh_token, Some("refresh_token".to_string()));
}

#[test]
fn test_account_new_proton() {
    let account = Account::new_proton(
        "user@proton.me".to_string(),
        "https://calendar.proton.me/ics".to_string(),
    );

    assert_eq!(account.provider, "proton");
    assert_eq!(account.account_name, "user@proton.me");
    assert_eq!(account.auth_data, "https://calendar.proton.me/ics");
    assert_eq!(account.refresh_token, None);
}

#[test]
fn test_account_provider() {
    let google_account = Account::new_google("test@gmail.com".to_string(), "auth".to_string(), None);
    let proton_account = Account::new_proton("user@proton.me".to_string(), "ics_url".to_string());

    assert!(matches!(google_account.provider().unwrap(), CalendarProvider::Google));
    assert!(matches!(proton_account.provider().unwrap(), CalendarProvider::Proton));
}

#[test]
fn account_with_unknown_provider_names_the_tag() {
    let mut account = Account::new_proton("user".to_string(), "url".to_string());
    account.provider = "outlook".to_string();
    assert_eq!(account.provider().unwrap_err(), "Unknown provider: outlook");
}

#[test]
fn test_alert_info_new() {
    let now = Utc::now();
    let mut video_event = event_at(
        (now + Duration::minutes(5)).timestamp(),
        (now + Duration::hours(1)).timestamp(),
        Some("https://meet.google.com/abc-def".to_string()),
        now.timestamp(),
    );
    video_event.external_id = "test-5".to_string();
    video_event.title = "Video Call".to_string();

    let alert_info = AlertInfo::new(video_event.clone());
    assert!(matches!(alert_info.alert_type, AlertType::VideoMeeting));
    let minutes = alert_info.minutes_remaining;
    assert!(minutes >= 4 && minutes <= 6, "Expected ~5 minutes, got {}", minutes);
}

#[test]
fn alert_info_at_a_given_time_is_exact() {
    let event = event_at(1_000_000, 1_003_600, None, 0);
    let info = AlertInfo::new_at(event, 1_000_000 - 299);
    assert!(matches!(info.alert_type, AlertType::Meeting));
    assert_eq!(info.minutes_remaining, 4);
}

#[test]
fn test_calendar_event_is_video_meeting() {
    let now = Utc::now();
    let event_with_video = event_at(
        now.timestamp(),
        (now + Duration::hours(1)).timestamp(),
        Some("https://zoom.us/j/123456".to_string()),
        now.timestamp(),
    );
    let event_without_video = CalendarEvent { video_link: None, ..event_with_video.clone() };

    assert!(event_with_video.is_video_meeting());
    assert!(!event_without_video.is_video_meeting());
}

#[test]
fn test_calendar_event_minutes_until_start() {
    let now = Utc::now();
    let future_event = event_at(
        (now + Duration::minutes(30)).timestamp(),
        (now + Duration::minutes(90)).timestamp(),
        None,
        now.timestamp(),
    );

    let minutes = future_event.minutes_until_start();
    assert!(minutes >= 29 && minutes <= 31, "Expected ~30 minutes, got {}", minutes);
}

#[test]
fn minutes_until_start_rounds_toward_zero() {
    let event = event_at(600, 4200, None, 0);
    assert_eq!(event.minutes_until_start_at(0), 10);
    assert_eq!(event.minutes_until_start_at(1), 9);
    assert_eq!(event.minutes_until_start_at(600), 0);
    assert_eq!(event.minutes_until_start_at(659), 0);
    assert_eq!(event.minutes_until_start_at(660), -1);
    assert_eq!(event.minutes_until_start_at(719), -1);
    assert_eq!(
        event.minutes_until_start_at(i64::MIN),
        ((600i128 - i64::MIN as i128) / 60) as i64
    );
}

#[test]
fn test_calendar_event_is_past() {
    let now = Utc::now();
    let past_event = event_at(
        (now - Duration::hours(1)).timestamp(),
        (now - Duration::minutes(30)).timestamp(),
        None,
        (now - Duration::hours(2)).timestamp(),
    );

    assert!(past_event.is_past());
    assert!(past_event.is_past_at(now.timestamp()));
    assert!(!past_event.is_past_at(past_event.start_time));
}

#[test]
fn test_calendar_event_is_happening_now() {
    let now = Utc::now();
    let ongoing_event = event_at(
        (now - Duration::minutes(15)).timestamp(),
        (now + Duration::minutes(45)).timestamp(),
        None,
        (now - Duration::hours(1)).timestamp(),
    );

    assert!(ongoing_event.is_happening_now());
    assert!(ongoing_event.is_happening_at(ongoing_event.start_time));
    assert!(ongoing_event.is_happening_at(ongoing_event.end_time));
    assert!(!ongoing_event.is_happening_at(ongoing_event.end_time + 1));
}

#[test]
fn duplicate_copies_every_field() {
    let mut event = event_at(5, 6, Some("https://zoom.us/j/1".to_string()), 7);
    event.id = Some(9);
    event.description = Some("d".to_string());
    event.snooze_count = 2;
    event.has_alerted = true;
    event.last_alert_threshold = Some(5);
    event.is_dismissed = true;
    let copy = event.duplicate();
    assert_eq!(format!("{:?}", copy), format!("{:?}", event));
}

#[test]
fn test_video_meeting_info_new() {
    let info = VideoMeetingInfo::new("Zoom".to_string(), "https://zoom.us/j/123456".to_string());

    assert_eq!(info.platform, "Zoom");
    assert_eq!(info.url, "https://zoom.us/j/123456");
    assert!(info.meeting_id.is_none());
    assert!(info.password.is_none());
}

#[test]
fn test_settings_default() {
    let settings = Settings::default();
    assert_eq!(settings.sound, "bells");
    assert_eq!(settings.volume_percent, 70);
    assert_eq!(settings.video_alert_offset, 3);
    assert_eq!(settings.regular_alert_offset, 1);
    assert_eq!(settings.snooze_interval, 2);
    assert_eq!(settings.max_snoozes, 3);
    assert_eq!(settings.sync_interval, 300);
    assert!(!settings.auto_join_enabled);
    assert_eq!(settings.theme, "dark");
    assert!(!settings.alert_30m);
    assert!(!settings.alert_10m);
    assert!(settings.alert_5m);
    assert!(settings.alert_1m);
    assert!(settings.alert_default);
}

#[test]
fn test_sync_result_success() {
    let result = SyncResult::success(1);
    assert!(result.success);
    assert_eq!(result.account_id, 1);
    assert_eq!(result.events_added, 0);
    assert_eq!(result.events_updated, 0);
    assert!(result.error_message.is_none());
}

#[test]
fn test_sync_result_with_counts() {
    let result = SyncResult::with_counts(1, 5, 3);
    assert!(result.success);
    assert_eq!(result.account_id, 1);
    assert_eq!(result.events_added, 5);
    assert_eq!(result.events_updated, 3);
}

#[test]
fn test_sync_result_with_error() {
    let result = SyncResult::with_error(1, "Network error".to_string());
    assert!(!result.success);
    assert_eq!(result.account_id, 1);
    assert_eq!(result.error_message, Some("Network error".to_string()));
}

#[test]
fn sync_result_records_the_time_it_is_given() {
    assert_eq!(SyncResult::success_at(2, 77).sync_time, 77);
    assert_eq!(SyncResult::with_counts_at(2, 1, 1, 78).sync_time, 78);
    assert_eq!(SyncResult::with_error_at(2, "e".to_string(), 79).sync_time, 79);
    let before = Utc::now().timestamp();
    let recorded = SyncResult::success(2).sync_time;
    assert!(recorded >= before && recorded <= before + 5);
}
