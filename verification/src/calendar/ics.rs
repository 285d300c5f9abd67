//! Reading calendar documents. The document grammar is the parser's; this
//! module turns what it parsed into plain values.
use vstd::prelude::*;
use chrono::NaiveTime;
use icalendar::{Calendar, CalendarComponent, CalendarDateTime, Component, DatePerhapsTime};
use crate::calendar::common::{opt_date_time, IcalDateTime, IcalDateTimeView};
use crate::models::event::opt_text;

verus! {

/// `icalendar::Calendar`, a parsed calendar document. What it holds is
/// read through the functions below.
#[verifier::external_type_specification]
#[verifier::external_body]
pub struct ExCalendar(Calendar);

/// `icalendar::CalendarComponent`, one component of a parsed document. It
/// is named only because a calendar dereferences to its components.
#[verifier::external_type_specification]
#[verifier::external_body]
pub struct ExCalendarComponent(CalendarComponent);

/// One component of a calendar document as a plain value. For a component
/// that is no event, every property is `None`.
pub struct IcsComponentView {
    /// Whether the component is an event.
    pub is_event: bool,
    pub uid: Option<Seq<char>>,
    pub summary: Option<Seq<char>>,
    pub description: Option<Seq<char>>,
    pub start: Option<IcalDateTimeView>,
    pub end: Option<IcalDateTimeView>,
}

/// The components that the parser finds in a text, in the order of the
/// text; `None` where the text is no calendar document. The grammar (RFC
/// 5545, as the parser reads it) is not spelled out here.
pub uninterp spec fn ics_document(text: Seq<char>) -> Option<Seq<IcsComponentView>>;

/// The components that a parsed calendar holds, in order.
pub uninterp spec fn calendar_components(calendar: Calendar) -> Seq<IcsComponentView>;

/// `icalendar::Calendar::from_str`. The outcome is a function of the text
/// alone: the parsed calendar, whose components are those of the text, or
/// the parser's message.
#[verifier::external_body]
pub(crate) fn parse_calendar(text: &str) -> (r: Result<Calendar, String>)
    ensures
        match r {
            Ok(calendar) => ics_document(text@) == Some(calendar_components(calendar)),
            Err(_) => ics_document(text@) is None,
        },
{
    text.parse::<Calendar>()
}

/// The length of `Calendar::components`.
#[verifier::external_body]
pub(crate) fn component_count(calendar: &Calendar) -> (n: usize)
    ensures
        n == calendar_components(*calendar).len(),
{
    calendar.components.len()
}

/// `CalendarComponent::as_event` on the component at `i`: whether it is an
/// event.
#[verifier::external_body]
pub(crate) fn component_is_event(calendar: &Calendar, i: usize) -> (b: bool)
    requires
        i < calendar_components(*calendar).len(),
    ensures
        b == calendar_components(*calendar)[i as int].is_event,
{
    calendar.components[i].as_event().is_some()
}

/// `Component::get_uid` on the event at `i`: the value of its `UID`
/// property.
#[verifier::external_body]
pub(crate) fn component_uid(calendar: &Calendar, i: usize) -> (r: Option<String>)
    requires
        i < calendar_components(*calendar).len(),
    ensures
        opt_text(r) == calendar_components(*calendar)[i as int].uid,
{
    calendar.components[i].as_event()?.get_uid().map(|s| s.to_string())
}

/// `Component::get_summary` on the event at `i`: the value of its `SUMMARY`
/// property.
#[verifier::external_body]
pub(crate) fn component_summary(calendar: &Calendar, i: usize) -> (r: Option<String>)
    requires
        i < calendar_components(*calendar).len(),
    ensures
        opt_text(r) == calendar_components(*calendar)[i as int].summary,
{
    calendar.components[i].as_event()?.get_summary().map(|s| s.to_string())
}

/// `Component::get_description` on the event at `i`: the value of its
/// `DESCRIPTION` property.
#[verifier::external_body]
pub(crate) fn component_description(calendar: &Calendar, i: usize) -> (r: Option<String>)
    requires
        i < calendar_components(*calendar).len(),
    ensures
        opt_text(r) == calendar_components(*calendar)[i as int].description,
{
    calendar.components[i].as_event()?.get_description().map(|s| s.to_string())
}

/// `Component::get_start` on the event at `i`: its `DTSTART` property, with
/// each wall-clock value counted in seconds from 1970-01-01T00:00:00.
#[verifier::external_body]
pub(crate) fn component_start(calendar: &Calendar, i: usize) -> (r: Option<IcalDateTime>)
    requires
        i < calendar_components(*calendar).len(),
    ensures
        opt_date_time(r) == calendar_components(*calendar)[i as int].start,
{
    Some(match calendar.components[i].as_event()?.get_start()? {
        DatePerhapsTime::Date(day) => IcalDateTime::Date(day.and_time(NaiveTime::MIN).and_utc().timestamp()),
        DatePerhapsTime::DateTime(CalendarDateTime::Utc(instant)) => IcalDateTime::Utc(instant.timestamp()),
        DatePerhapsTime::DateTime(CalendarDateTime::Floating(wall)) => IcalDateTime::Floating(wall.and_utc().timestamp()),
        DatePerhapsTime::DateTime(CalendarDateTime::WithTimezone { date_time, tzid }) => IcalDateTime::WithTimezone { date_time: date_time.and_utc().timestamp(), tzid },
    })
}

/// `Component::get_end` on the event at `i`: its `DTEND` property, with
/// each wall-clock value counted in seconds from 1970-01-01T00:00:00.
#[verifier::external_body]
pub(crate) fn component_end(calendar: &Calendar, i: usize) -> (r: Option<IcalDateTime>)
    requires
        i < calendar_components(*calendar).len(),
    ensures
        opt_date_time(r) == calendar_components(*calendar)[i as int].end,
{
    Some(match calendar.components[i].as_event()?.get_end()? {
        DatePerhapsTime::Date(day) => IcalDateTime::Date(day.and_time(NaiveTime::MIN).and_utc().timestamp()),
        DatePerhapsTime::DateTime(CalendarDateTime::Utc(instant)) => IcalDateTime::Utc(instant.timestamp()),
        DatePerhapsTime::DateTime(CalendarDateTime::Floating(wall)) => IcalDateTime::Floating(wall.and_utc().timestamp()),
        DatePerhapsTime::DateTime(CalendarDateTime::WithTimezone { date_time, tzid }) => IcalDateTime::WithTimezone { date_time: date_time.and_utc().timestamp(), tzid },
    })
}

/// An event of a calendar document: the properties that the engine reads.
#[derive(Debug, Clone)]
pub struct IcsEvent {
    pub uid: Option<String>,
    pub summary: Option<String>,
    pub description: Option<String>,
    pub start: Option<IcalDateTime>,
    pub end: Option<IcalDateTime>,
}

/// An event of a calendar document as a plain value.
pub struct IcsEventView {
    pub uid: Option<Seq<char>>,
    pub summary: Option<Seq<char>>,
    pub description: Option<Seq<char>>,
    pub start: Option<IcalDateTimeView>,
    pub end: Option<IcalDateTimeView>,
}

impl View for IcsEvent {
    type V = IcsEventView;

    open spec fn view(&self) -> IcsEventView {
        IcsEventView {
            uid: opt_text(self.uid),
            summary: opt_text(self.summary),
            description: opt_text(self.description),
            start: opt_date_time(self.start),
            end: opt_date_time(self.end),
        }
    }
}

/// The views of a list of events.
pub open spec fn ics_event_views(events: Seq<IcsEvent>) -> Seq<IcsEventView> {
    events.map_values(|e: IcsEvent| e@)
}

/// The event that a component is.
pub open spec fn event_of(component: IcsComponentView) -> IcsEventView {
    IcsEventView {
        uid: component.uid,
        summary: component.summary,
        description: component.description,
        start: component.start,
        end: component.end,
    }
}

/// The events among the first `n` components, in order.
pub open spec fn events_among(components: Seq<IcsComponentView>, n: int) -> Seq<IcsEventView>
    decreases n,
{
    if n <= 0 || n > components.len() {
        Seq::empty()
    } else if components[n - 1].is_event {
        events_among(components, n - 1).push(event_of(components[n - 1]))
    } else {
        events_among(components, n - 1)
    }
}

/// The events of a document, in the order of its components.
pub open spec fn events_of(components: Seq<IcsComponentView>) -> Seq<IcsEventView> {
    events_among(components, components.len() as int)
}

/// The events of a parsed calendar, in order; other components are passed
/// over.
pub fn calendar_events(calendar: &Calendar) -> (events: Vec<IcsEvent>)
    ensures
        ics_event_views(events@) == events_of(calendar_components(*calendar)),
{
    let count = component_count(calendar);
    let mut events: Vec<IcsEvent> = Vec::new();
    let mut i: usize = 0;
    while i < count
        invariant
            i <= count,
            count == calendar_components(*calendar).len(),
            ics_event_views(events@) == events_among(calendar_components(*calendar), i as int),
        decreases count - i,
    {
        if component_is_event(calendar, i) {
            let event = IcsEvent {
                uid: component_uid(calendar, i),
                summary: component_summary(calendar, i),
                description: component_description(calendar, i),
                start: component_start(calendar, i),
                end: component_end(calendar, i),
            };
            let ghost before = events@;
            events.push(event);
            assert(ics_event_views(events@) =~= ics_event_views(before).push(event@));
        }
        i += 1;
    }
    events
}

/// Reads the events of a calendar document.
///
/// The parser decides whether the text is a document and what its
/// components are; the result holds the events among them, in order, or the
/// parser's message.
pub fn read_events(text: &str) -> (r: Result<Vec<IcsEvent>, String>)
    ensures
        match r {
            Ok(events) => ics_document(text@) matches Some(components) && ics_event_views(events@)
                == events_of(components),
            Err(_) => ics_document(text@) is None,
        },
{
    match parse_calendar(text) {
        Ok(calendar) => Ok(calendar_events(&calendar)),
        Err(message) => Err(message),
    }
}

} // verus!
