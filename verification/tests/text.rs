use openchime::clock::{shift, whole_hours_between, whole_minutes_until};
use openchime::text::{
    bool_str, contains_chars, i64_to_decimal, is_whitespace, matches_at, parse_bool, parse_i32,
    skip_spaces, skip_spaces_back, str_contains, str_ends_with, str_eq, str_is_blank,
    str_starts_with, to_chars, trim, u64_to_decimal, u64_to_hex,
};
use openchime::ui_state::views::View;
use openchime::ui_state::{AlertsMessage, AlertsView, UiState};
use openchime::messages::{apply_toggle, Message};
use openchime::models::{AlertInfo, AlertType, CalendarEvent, Settings};

#[test]
fn white_space_is_what_the_standard_library_says() {
    for n in 0u32..0x3100 {
        if let Some(c) = char::from_u32(n) {
            assert_eq!(is_whitespace(c), c.is_whitespace(), "U+{:04X}", n);
        }
    }
    assert!(!is_whitespace('\u{feff}'));
    assert!(!is_whitespace('\u{10ffff}'));
}

#[test]
fn trimming_agrees_with_the_standard_library() {
    for text in ["", " ", "a", " a", "a ", "  a b  ", "\t\n x \r\n", "\u{2003}é\u{a0}", "   \u{3000}"] {
        assert_eq!(trim(text), text.trim());
        assert_eq!(str_is_blank(text), text.trim().is_empty());
    }
    let chars = to_chars("  ab ");
    assert_eq!(chars, vec![' ', ' ', 'a', 'b', ' ']);
    assert_eq!(skip_spaces(&chars, 0), 2);
    assert_eq!(skip_spaces(&chars, 3), 3);
    assert_eq!(skip_spaces(&chars, 4), 5);
    assert_eq!(skip_spaces_back(&chars, 5), 4);
    assert_eq!(skip_spaces_back(&chars, 2), 0);
}

#[test]
fn searching_agrees_with_the_standard_library() {
    let hays = ["", "a", "abc", "ababab", "héllo wörld", "aaa"];
    let needles = ["", "a", "b", "ab", "bab", "abc", "abcd", "é", "wörld", "aa", "aaaa"];
    for hay in hays {
        for needle in needles {
            assert_eq!(str_contains(hay, needle), hay.contains(needle), "{:?} in {:?}", needle, hay);
            assert_eq!(str_starts_with(hay, needle), hay.starts_with(needle));
            assert_eq!(str_ends_with(hay, needle), hay.ends_with(needle));
            assert_eq!(str_eq(hay, needle), hay == needle);
            assert_eq!(contains_chars(&to_chars(hay), &to_chars(needle)), hay.contains(needle));
        }
    }
    assert!(matches_at(&to_chars("abc"), &to_chars("bc"), 1));
    assert!(!matches_at(&to_chars("abc"), &to_chars("bc"), 2));
    assert!(matches_at(&to_chars("abc"), &to_chars(""), 3));
    assert!(!matches_at(&to_chars("abc"), &to_chars(""), 4));
}

#[test]
fn numbers_are_spelled_as_the_standard_library_spells_them() {
    for n in [0u64, 1, 9, 10, 11, 99, 100, 255, 256, 4095, 4096, 1672592400, u64::MAX] {
        assert_eq!(u64_to_decimal(n), n.to_string());
        assert_eq!(u64_to_hex(n), format!("{:x}", n));
    }
    for x in [0i64, 1, -1, 9, -9, 10, -10, 1672592400, -1672592400, i64::MAX, i64::MIN] {
        assert_eq!(i64_to_decimal(x), x.to_string());
    }
    assert_eq!(bool_str(true), "true");
    assert_eq!(bool_str(false), "false");
}

#[test]
fn numbers_are_read_as_the_standard_library_reads_them() {
    for text in [
        "", "0", "-0", "+0", "7", "+7", "-7", "007", "-007", "2147483647", "2147483648", "-2147483648",
        "-2147483649", "99999999999999999999999", "0000000000000000000000001", "+", "-", "--1", "+-1",
        "1-", " 1", "1 ", "1.0", "1e3", "0x10", "١٢٣", "12a", "a12",
    ] {
        assert_eq!(parse_i32(text), text.parse::<i32>().ok(), "{:?}", text);
    }
    for text in ["true", "false", "True", "FALSE", "", " true", "1", "0", "yes", "truee"] {
        assert_eq!(parse_bool(text), text.parse::<bool>().ok(), "{:?}", text);
    }
}

#[test]
fn time_arithmetic_rounds_toward_zero_and_saturates() {
    assert_eq!(whole_minutes_until(120, 0), 2);
    assert_eq!(whole_minutes_until(119, 0), 1);
    assert_eq!(whole_minutes_until(0, 119), -1);
    assert_eq!(whole_minutes_until(0, 120), -2);
    assert_eq!(whole_minutes_until(0, 59), 0);
    assert_eq!(whole_minutes_until(i64::MAX, i64::MIN), (u64::MAX / 60) as i64);
    assert_eq!(whole_hours_between(0, 7199), 1);
    assert_eq!(whole_hours_between(7199, 0), -1);
    assert_eq!(shift(10, 3600), 3610);
    assert_eq!(shift(10, -3600), -3590);
    assert_eq!(shift(i64::MAX - 1, 3600), i64::MAX);
    assert_eq!(shift(i64::MIN + 1, -3600), i64::MIN);
}

fn alert(external_id: &str) -> AlertInfo {
    let event = CalendarEvent {
        id: None,
        external_id: external_id.to_string(),
        account_id: 1,
        title: "T".to_string(),
        description: None,
        start_time: 0,
        end_time: 0,
        video_link: None,
        video_platform: None,
        snooze_count: 0,
        has_alerted: false,
        last_alert_threshold: None,
        is_dismissed: false,
        created_at: 0,
        updated_at: 0,
    };
    AlertInfo { event, alert_type: AlertType::Meeting, minutes_remaining: 0 }
}

#[test]
fn the_window_starts_on_the_calendar() {
    let state = UiState::new();
    assert_eq!(state.current_view, View::Calendar);
    assert_eq!(state.account_name, "");
    assert_eq!(state.ics_url, "");
    assert_eq!(state.sync_status, "Ready");
    assert!(!state.loading);
    assert_eq!(state.last_sync_time, None);
}

#[test]
fn the_alerts_view_follows_the_user() {
    let mut view = AlertsView::new();
    assert_eq!((view.active_count(), view.history_count()), (0, 0));
    view.add_alert(alert("a"));
    view.add_alert(alert("b"));
    view.add_alert(alert("a"));
    assert_eq!((view.active_count(), view.history_count()), (3, 3));
    view.update(AlertsMessage::SnoozeAlert("a".to_string()));
    view.update(AlertsMessage::TestAlert(AlertType::Test));
    assert_eq!((view.active_count(), view.history_count()), (3, 3));
    view.update(AlertsMessage::DismissAlert("a".to_string()));
    assert_eq!((view.active_count(), view.history_count()), (1, 3));
    view.update(AlertsMessage::DismissAlert("zzz".to_string()));
    assert_eq!((view.active_count(), view.history_count()), (1, 3));
    view.update(AlertsMessage::ClearHistory);
    assert_eq!((view.active_count(), view.history_count()), (1, 0));
    view.set_active_alerts(vec![alert("x"), alert("y")]);
    assert_eq!((view.active_count(), view.history_count()), (2, 0));
}

#[test]
fn threshold_switches_change_one_preference() {
    let mut s = Settings::default();
    apply_toggle(&mut s, &Message::ToggleAlert30m(true));
    apply_toggle(&mut s, &Message::ToggleAlert10m(true));
    apply_toggle(&mut s, &Message::ToggleAlert5m(false));
    apply_toggle(&mut s, &Message::ToggleAlert1m(false));
    apply_toggle(&mut s, &Message::ToggleAlertDefault(false));
    apply_toggle(&mut s, &Message::ToggleTheme(true));
    apply_toggle(&mut s, &Message::SyncCalendars);
    assert!(s.alert_30m && s.alert_10m && !s.alert_5m && !s.alert_1m && !s.alert_default);
    assert_eq!(s.theme, "dark");
    assert_eq!(s.sync_interval, 300);
}
