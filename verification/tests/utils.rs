use openchime::utils::{
    extract_meeting_keywords, extract_meeting_password, extract_video_link, find_video_link,
    is_all_day_event, keywords_of_lowercase, normalize_title,
};

#[test]
fn test_extract_zoom_link() {
    let description = Some("Join us for weekly sync");
    let location = Some("https://zoom.us/j/123456789");

    let result = extract_video_link(description, location);
    assert!(result.is_some());
    assert_eq!(result.unwrap().platform, "Zoom");
}

#[test]
fn test_extract_google_meet() {
    let description = Some("Meeting link: https://meet.google.com/abc-def-xyz");
    let location = Some("");

    let result = extract_video_link(description, location);
    assert!(result.is_some());
    assert_eq!(result.unwrap().platform, "Google Meet");
}

#[test]
fn test_no_video_link() {
    let description = Some("Regular team meeting");
    let location = Some("Conference Room A");

    let result = extract_video_link(description, location);
    assert!(result.is_none());
}

#[test]
fn test_extract_google_meet_str() {
    let description = Some("Meeting link: https://meet.google.com/abc-def-xyz");
    let location = Some("");

    let result = extract_video_link(description, location);
    assert!(result.is_some());
    assert_eq!(result.unwrap().platform, "Google Meet");
}

#[test]
fn test_no_video_link_str() {
    let description = Some("Regular team meeting");
    let location = Some("Conference Room A");

    let result = extract_video_link(description, location);
    assert!(result.is_none());
}

#[test]
fn test_extract_password() {
    let text = "password: 123456";
    let result = extract_meeting_password(text);
    assert_eq!(result.unwrap(), "123456");
}

#[test]
fn video_links_come_with_url_and_identifier() {
    let info = extract_video_link(Some("Join us"), Some("https://zoom.us/j/123456789")).unwrap();
    assert_eq!(info.platform, "Zoom");
    assert_eq!(info.url, "https://zoom.us/j/123456789");
    assert_eq!(info.meeting_id, Some("123456789".to_string()));
    assert_eq!(info.password, None);

    let info = extract_video_link(Some("Link: https://meet.google.com/abc-def-xyz?x=1"), None).unwrap();
    assert_eq!(info.url, "https://meet.google.com/abc-def-xyz");
    assert_eq!(info.meeting_id, Some("abc-def-xyz".to_string()));

    let info = find_video_link("at https://teams.microsoft.com/l/meetup-join/abc").unwrap();
    assert_eq!(info.platform, "Teams");
    let info = find_video_link("https://acme.webex.com/meet/jo").unwrap();
    assert_eq!(info.platform, "Webex");
    let info = find_video_link("https://discord.gg/xyz").unwrap();
    assert_eq!(info.platform, "Discord");
    let info = find_video_link("facetime://jo@example.com").unwrap();
    assert_eq!(info.platform, "FaceTime");
    let info = find_video_link("zoom.us/j/42").unwrap();
    assert_eq!((info.platform.as_str(), info.url.as_str()), ("Zoom", "zoom.us/j/42"));
    let info = find_video_link("https://example.com/call/1").unwrap();
    assert_eq!(info.platform, "Meeting");
    assert!(find_video_link("https://example.com/agenda").is_none());
    assert!(extract_video_link(None, None).is_none());
}

#[test]
fn description_and_location_are_joined_by_a_space() {
    // The link ends where the description ends: the location is not part of it.
    let info = extract_video_link(Some("https://meet.google.com/abc"), Some("def")).unwrap();
    assert_eq!(info.url, "https://meet.google.com/abc");
}

#[test]
fn passwords_are_found_by_their_labels() {
    assert_eq!(extract_meeting_password("pwd: abc123"), Some("abc123".to_string()));
    assert_eq!(extract_meeting_password("pass:\tXyZ"), Some("XyZ".to_string()));
    assert_eq!(extract_meeting_password("code: 42, pin: 7"), Some("42".to_string()));
    assert_eq!(extract_meeting_password("pin: 7, password: first"), Some("first".to_string()));
    assert_eq!(extract_meeting_password("Password: 1"), None);
    assert_eq!(extract_meeting_password("nothing here"), None);
}

#[test]
fn all_day_events_last_24_hours_or_more() {
    assert!(is_all_day_event(0, 86400));
    assert!(!is_all_day_event(0, 86399));
    assert!(is_all_day_event(-86400, 86400));
    assert!(!is_all_day_event(86400, 0));
    assert!(is_all_day_event(i64::MIN, i64::MAX));
}

#[test]
fn titles_are_trimmed() {
    assert_eq!(normalize_title("  Team Sync \n"), "Team Sync");
    assert_eq!(normalize_title("\u{2003}Émile's call\u{a0}"), "Émile's call");
    assert_eq!(normalize_title("a  b"), "a  b");
    assert_eq!(normalize_title("   "), "");
    assert_eq!(normalize_title(""), "");
}

#[test]
fn keywords_are_found_in_title_and_description() {
    assert_eq!(
        extract_meeting_keywords("Weekly SYNC", Some("Sprint Planning and retro")),
        vec!["sync".to_string(), "retro".to_string(), "planning".to_string()]
    );
    assert_eq!(
        extract_meeting_keywords("Q&A", None),
        vec!["q&a".to_string()]
    );
    assert_eq!(
        extract_meeting_keywords("All Hands", Some("town hall")),
        vec!["all hands".to_string(), "town hall".to_string()]
    );
    assert!(extract_meeting_keywords("Lunch", Some("with Ann")).is_empty());
    // Title and description are joined by a space, so a word does not span them.
    assert!(extract_meeting_keywords("de", Some("mo")).is_empty());
    assert_eq!(keywords_of_lowercase("checkin"), vec!["checkin".to_string()]);
    assert!(keywords_of_lowercase("MEETING").is_empty());
}
