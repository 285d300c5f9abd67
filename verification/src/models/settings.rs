//! User preferences.
use vstd::prelude::*;

verus! {

/// One row of the flat key-value table that preferences are stored in.
#[derive(Debug, Clone)]
pub struct Setting {
    pub key: String,
    pub value: String,
}

/// User preferences. The five `alert_*` flags switch the alert thresholds
/// on and off.
#[derive(Debug, Clone)]
pub struct Settings {
    /// Name of the alert sound.
    pub sound: String,
    /// Playback volume, 0 to 100.
    pub volume_percent: u8,
    /// Minutes before a video meeting.
    pub video_alert_offset: i32,
    /// Minutes before any other meeting.
    pub regular_alert_offset: i32,
    /// Minutes a snooze lasts.
    pub snooze_interval: i32,
    pub max_snoozes: i32,
    /// Seconds between full synchronisations.
    pub sync_interval: i32,
    pub auto_join_enabled: bool,
    pub theme: String,
    /// Alert 30 minutes before the start.
    pub alert_30m: bool,
    /// Alert 10 minutes before the start.
    pub alert_10m: bool,
    /// Alert 5 minutes before the start.
    pub alert_5m: bool,
    /// Alert 1 minute before the start.
    pub alert_1m: bool,
    /// Alert at the start.
    pub alert_default: bool,
}

/// User preferences as a plain value.
pub struct SettingsView {
    pub sound: Seq<char>,
    pub volume_percent: u8,
    pub video_alert_offset: i32,
    pub regular_alert_offset: i32,
    pub snooze_interval: i32,
    pub max_snoozes: i32,
    pub sync_interval: i32,
    pub auto_join_enabled: bool,
    pub theme: Seq<char>,
    pub alert_30m: bool,
    pub alert_10m: bool,
    pub alert_5m: bool,
    pub alert_1m: bool,
    pub alert_default: bool,
}

impl View for Settings {
    type V = SettingsView;

    open spec fn view(&self) -> SettingsView {
        SettingsView {
            sound: self.sound@,
            volume_percent: self.volume_percent,
            video_alert_offset: self.video_alert_offset,
            regular_alert_offset: self.regular_alert_offset,
            snooze_interval: self.snooze_interval,
            max_snoozes: self.max_snoozes,
            sync_interval: self.sync_interval,
            auto_join_enabled: self.auto_join_enabled,
            theme: self.theme@,
            alert_30m: self.alert_30m,
            alert_10m: self.alert_10m,
            alert_5m: self.alert_5m,
            alert_1m: self.alert_1m,
            alert_default: self.alert_default,
        }
    }
}

/// The preferences of a fresh installation: the alerts at 5 and 1 minutes
/// and at the start are on, those at 30 and 10 minutes are off.
pub open spec fn default_settings() -> SettingsView {
    SettingsView {
        sound: "bells"@,
        volume_percent: 70,
        video_alert_offset: 3,
        regular_alert_offset: 1,
        snooze_interval: 2,
        max_snoozes: 3,
        sync_interval: 300,
        auto_join_enabled: false,
        theme: "dark"@,
        alert_30m: false,
        alert_10m: false,
        alert_5m: true,
        alert_1m: true,
        alert_default: true,
    }
}

impl Settings {
    /// Whether every preference has its default value.
    pub open spec fn is_default(&self) -> bool {
        self@ == default_settings()
    }
}

impl Default for Settings {
    fn default() -> (settings: Self)
        ensures
            settings.is_default(),
    {
        Self {
            sound: String::from_str("bells"),
            volume_percent: 70,
            video_alert_offset: 3,
            regular_alert_offset: 1,
            snooze_interval: 2,
            max_snoozes: 3,
            sync_interval: 300,
            auto_join_enabled: false,
            theme: String::from_str("dark"),
            alert_30m: false,
            alert_10m: false,
            alert_5m: true,
            alert_1m: true,
            alert_default: true,
        }
    }
}

} // verus!
