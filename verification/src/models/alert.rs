//! Alerts and their kinds.
use vstd::prelude::*;
use crate::clock::{minutes_until, utc_now};
use crate::models::event::CalendarEvent;

verus! {

/// The kinds of alert. The set is closed: one per threshold, two for the
/// start of a meeting, and two for testing and snooze reminders.
#[derive(Debug, Clone, Copy, PartialEq, Eq, Structural)]
pub enum AlertType {
    VideoMeeting,
    Meeting,
    SnoozeReminder,
    Test,
    Warning30m,
    Warning10m,
    Warning5m,
    Warning1m,
}

/// The alert that announces the start of a meeting.
pub open spec fn start_alert(has_video: bool) -> AlertType {
    if has_video {
        AlertType::VideoMeeting
    } else {
        AlertType::Meeting
    }
}

/// An alert as shown to the user.
#[derive(Debug, Clone)]
pub struct AlertInfo {
    pub event: CalendarEvent,
    pub alert_type: AlertType,
    pub minutes_remaining: i64,
}

impl AlertInfo {
    /// The start-of-meeting alert for `event`, seen at `now`.
    pub fn new_at(event: CalendarEvent, now: i64) -> (info: Self)
        ensures
            info.event == event,
            info.alert_type == start_alert(event.has_video()),
            info.minutes_remaining == minutes_until(event.start_time as int, now as int),
    {
        let minutes_remaining = event.minutes_until_start_at(now);
        let alert_type = if event.is_video_meeting() {
            AlertType::VideoMeeting
        } else {
            AlertType::Meeting
        };
        Self { event, alert_type, minutes_remaining }
    }

    /// The start-of-meeting alert for `event`, seen at the current time.
    pub fn new(event: CalendarEvent) -> (info: Self)
        ensures
            info.event == event,
            info.alert_type == start_alert(event.has_video()),
            exists|now: i64|
                info.minutes_remaining == minutes_until(event.start_time as int, now as int),
    {
        let now = utc_now();
        Self::new_at(event, now)
    }
}

} // verus!
