//! Calendar events as they are stored.
use vstd::prelude::*;
use crate::clock::{minutes_until, utc_now, whole_minutes_until};

verus! {

/// The characters of an optional text.
pub open spec fn opt_text(value: Option<String>) -> Option<Seq<char>> {
    match value {
        Some(s) => Some(s@),
        None => None,
    }
}

/// A stored calendar event. Instants are seconds since the Unix epoch.
#[derive(Debug, Clone)]
pub struct CalendarEvent {
    /// Row identity, once stored.
    pub id: Option<i64>,
    /// Identity given by the event's origin; unique within an account.
    pub external_id: String,
    /// The owning account.
    pub account_id: i64,
    pub title: String,
    pub description: Option<String>,
    pub start_time: i64,
    pub end_time: i64,
    pub video_link: Option<String>,
    pub video_platform: Option<String>,
    /// How often the event's alert was snoozed.
    pub snooze_count: i32,
    pub has_alerted: bool,
    /// The lowest threshold, in minutes before the start, that has fired.
    pub last_alert_threshold: Option<i32>,
    /// Set once by the user; never cleared.
    pub is_dismissed: bool,
    pub created_at: i64,
    pub updated_at: i64,
}

/// A calendar event as a plain value.
pub struct CalendarEventView {
    pub id: Option<i64>,
    pub external_id: Seq<char>,
    pub account_id: i64,
    pub title: Seq<char>,
    pub description: Option<Seq<char>>,
    pub start_time: i64,
    pub end_time: i64,
    pub video_link: Option<Seq<char>>,
    pub video_platform: Option<Seq<char>>,
    pub snooze_count: i32,
    pub has_alerted: bool,
    pub last_alert_threshold: Option<i32>,
    pub is_dismissed: bool,
    pub created_at: i64,
    pub updated_at: i64,
}

impl View for CalendarEvent {
    type V = CalendarEventView;

    open spec fn view(&self) -> CalendarEventView {
        CalendarEventView {
            id: self.id,
            external_id: self.external_id@,
            account_id: self.account_id,
            title: self.title@,
            description: opt_text(self.description),
            start_time: self.start_time,
            end_time: self.end_time,
            video_link: opt_text(self.video_link),
            video_platform: opt_text(self.video_platform),
            snooze_count: self.snooze_count,
            has_alerted: self.has_alerted,
            last_alert_threshold: self.last_alert_threshold,
            is_dismissed: self.is_dismissed,
            created_at: self.created_at,
            updated_at: self.updated_at,
        }
    }
}

/// The views of a list of events.
pub open spec fn event_views(events: Seq<CalendarEvent>) -> Seq<CalendarEventView> {
    events.map_values(|e: CalendarEvent| e@)
}

/// A copy of an optional text.
pub fn clone_opt_text(value: &Option<String>) -> (r: Option<String>)
    ensures
        opt_text(r) == opt_text(*value),
{
    match value {
        Some(text) => Some(text.clone()),
        None => None,
    }
}

/// Whether two optional texts are the same.
pub fn opt_text_eq(a: &Option<String>, b: &Option<String>) -> (r: bool)
    ensures
        r == (opt_text(*a) == opt_text(*b)),
{
    match (a, b) {
        (Some(x), Some(y)) => *x == *y,
        (None, None) => true,
        _ => false,
    }
}

impl CalendarEvent {
    /// A copy of the event.
    pub fn duplicate(&self) -> (copy: Self)
        ensures
            copy@ == self@,
    {
        Self {
            id: self.id,
            external_id: self.external_id.clone(),
            account_id: self.account_id,
            title: self.title.clone(),
            description: clone_opt_text(&self.description),
            start_time: self.start_time,
            end_time: self.end_time,
            video_link: clone_opt_text(&self.video_link),
            video_platform: clone_opt_text(&self.video_platform),
            snooze_count: self.snooze_count,
            has_alerted: self.has_alerted,
            last_alert_threshold: self.last_alert_threshold,
            is_dismissed: self.is_dismissed,
            created_at: self.created_at,
            updated_at: self.updated_at,
        }
    }

    /// Whether the event carries a video link.
    pub open spec fn has_video(&self) -> bool {
        self.video_link is Some
    }

    /// Whether the event started before `now`.
    pub open spec fn started_before(&self, now: i64) -> bool {
        self.start_time < now
    }

    /// Whether `now` lies between the event's start and end, both included.
    pub open spec fn spans(&self, now: i64) -> bool {
        self.start_time <= now <= self.end_time
    }

    /// Whether the event carries a video link.
    pub fn is_video_meeting(&self) -> (b: bool)
        ensures
            b == self.has_video(),
    {
        self.video_link.is_some()
    }

    /// Whole minutes from `now` until the start, rounded toward zero.
    pub fn minutes_until_start_at(&self, now: i64) -> (m: i64)
        ensures
            m == minutes_until(self.start_time as int, now as int),
    {
        whole_minutes_until(self.start_time, now)
    }

    /// Whole minutes from the current time until the start.
    pub fn minutes_until_start(&self) -> (m: i64)
        ensures
            exists|now: i64| m == minutes_until(self.start_time as int, now as int),
    {
        let now = utc_now();
        self.minutes_until_start_at(now)
    }

    /// Whether the event started before `now`.
    pub fn is_past_at(&self, now: i64) -> (b: bool)
        ensures
            b == self.started_before(now),
    {
        self.start_time < now
    }

    /// Whether the event has started by the current time.
    pub fn is_past(&self) -> (b: bool)
        ensures
            exists|now: i64| b == self.started_before(now),
    {
        let now = utc_now();
        self.is_past_at(now)
    }

    /// Whether the event is under way at `now`.
    pub fn is_happening_at(&self, now: i64) -> (b: bool)
        ensures
            b == self.spans(now),
    {
        now >= self.start_time && now <= self.end_time
    }

    /// Whether the event is under way at the current time.
    pub fn is_happening_now(&self) -> (b: bool)
        ensures
            exists|now: i64| b == self.spans(now),
    {
        let now = utc_now();
        self.is_happening_at(now)
    }
}

} // verus!
