//! Resilient calendar synchronisation and alert scheduling.
pub mod alerts;
pub mod audio;
pub mod calendar;
pub mod clock;
pub mod config;
pub mod database;
pub mod error;
pub mod http_config;
pub mod messages;
pub mod models;
pub mod text;
pub mod ui_state;
pub mod utils;

pub use alerts::{get_upcoming_events, should_trigger_alert, sync_calendars, MonitorEvent};
pub use audio::SoundFiles;
pub use database::PoolStats;
pub use error::AppError;
pub use models::{
    Account, AlertInfo, AlertType, CalendarEvent, CalendarProvider, Setting, Settings, SyncResult,
    VideoMeetingInfo,
};
