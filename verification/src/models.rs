//! The data the engine works on: accounts, events, alerts, settings and
//! sync results.
pub mod account;
pub mod alert;
pub mod event;
pub mod meeting;
pub mod settings;
pub mod sync;

pub use account::{Account, CalendarProvider};
pub use alert::{AlertInfo, AlertType};
pub use event::CalendarEvent;
pub use meeting::VideoMeetingInfo;
pub use settings::{Setting, Settings};
pub use sync::SyncResult;
