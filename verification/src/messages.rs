//! What the parts of the application tell one another.
use vstd::prelude::*;
use crate::alerts::MonitorEvent;
use crate::models::account::Account;
use crate::models::event::CalendarEvent;
use crate::models::settings::Settings;

verus! {

/// A message of the application: what the user did, what an operation
/// brought, or what the scheduler reports.
#[derive(Debug)]
pub enum Message {
    ShowCalendar,
    ShowSettings,
    ShowAlerts,
    ToggleTheme(bool),
    /// Open an address in the browser.
    OpenUrl(String),
    /// Join the meeting at an address.
    JoinMeeting(String),
    TestAudio,
    StopSound,
    /// Snooze the alert of the event with this identity.
    SnoozeAlert(i64),
    /// Dismiss the alert of the event with this identity.
    DismissAlert(i64),
    AccountNameChanged(String),
    IcsUrlChanged(String),
    AuthDataChanged(String),
    RefreshTokenChanged(String),
    ToggleAlert30m(bool),
    ToggleAlert10m(bool),
    ToggleAlert5m(bool),
    ToggleAlert1m(bool),
    ToggleAlertDefault(bool),
    AddProtonAccount,
    /// Delete the account with this identity.
    DeleteAccount(i64),
    /// Synchronise the account with this identity.
    SyncAccount(i64),
    SyncCalendars,
    AccountAdded(Result<Account, String>),
    AccountDeleted(Result<(), String>),
    CalendarSyncResult(Result<(), String>),
    AudioTestResult(Result<(), String>),
    EventsUpdated(Vec<CalendarEvent>),
    SettingsUpdated(Settings),
    DataLoaded(Vec<CalendarEvent>, Vec<Account>),
    MonitorEventReceived(MonitorEvent),
}

/// The preferences after the user switched a threshold on or off; any
/// other message leaves them as they are.
pub open spec fn toggled(settings: Settings, message: Message) -> Settings {
    match message {
        Message::ToggleAlert30m(on) => Settings { alert_30m: on, ..settings },
        Message::ToggleAlert10m(on) => Settings { alert_10m: on, ..settings },
        Message::ToggleAlert5m(on) => Settings { alert_5m: on, ..settings },
        Message::ToggleAlert1m(on) => Settings { alert_1m: on, ..settings },
        Message::ToggleAlertDefault(on) => Settings { alert_default: on, ..settings },
        _ => settings,
    }
}

/// Applies a threshold switch to the preferences.
pub fn apply_toggle(settings: &mut Settings, message: &Message)
    ensures
        *final(settings) == toggled(*old(settings), *message),
{
    match message {
        Message::ToggleAlert30m(on) => {
            settings.alert_30m = *on;
        },
        Message::ToggleAlert10m(on) => {
            settings.alert_10m = *on;
        },
        Message::ToggleAlert5m(on) => {
            settings.alert_5m = *on;
        },
        Message::ToggleAlert1m(on) => {
            settings.alert_1m = *on;
        },
        Message::ToggleAlertDefault(on) => {
            settings.alert_default = *on;
        },
        _ => {},
    }
}

} // verus!
