//! Google Calendar, read through its feed.
use vstd::prelude::*;
use crate::calendar::common::{
    always_answers, fetch_ics_data, fetch_outcome, instant_of, is_accepted_address,
    is_fetch_failure, is_fetched_by, lemma_answered_fetch_succeeds, parse_optional_datetime,
    serves_only, FetchError, HttpAttempt,
};
use crate::calendar::ics::{
    events_of, ics_document, ics_event_views, read_events, IcsEvent, IcsEventView,
};
use crate::calendar::normalize::{
    fallback_external_id, fallback_id, is_stable_entry, optional_instant, title_of,
};
use crate::calendar::reconcile::{
    candidates_agree, keeps_rows, lemma_prefix_grows_by_candidates,
    lemma_second_run_changes_nothing, same_content, Tally,
};
use crate::calendar::{
    account_key, candidates_synced, connection_tested, counts_of, is_report,
    lemma_rows_keep_themselves, sync_candidates, SyncError,
};
use crate::clock::{shift, shifted};
use crate::database::events::{rows_wf, EventStore, MAX_ROWS};
use crate::models::account::Account;
use crate::models::event::{
    clone_opt_text, event_views, opt_text, CalendarEvent, CalendarEventView,
};
use crate::models::sync::SyncResult;
use crate::text::{
    has_prefix, has_substring, matches_at, occurs_at, skip_spaces, to_chars, trimmed_start,
};
use crate::utils::circuit_breaker::{bumped, failed_at_reading, BreakerModel, CircuitBreaker};
use crate::utils::{combined_text, extract_video_link, find_video_link, video_link_in};

verus! {

/// The tag before the hash that identifies an event without UID.
pub const GOOGLE_TAG: &'static str = "ics_";

/// The name of the service's circuit breaker.
pub const GOOGLE_SERVICE: &'static str = "google_calendar";

/// The start or end of a Google event.
#[derive(Debug, Clone)]
pub struct GoogleEventTime {
    /// The instant, where it could be resolved.
    pub date_time: Option<i64>,
    /// The date of an all-day event, as the service writes it.
    pub date: Option<String>,
}

/// An event as Google Calendar gives it.
#[derive(Debug, Clone)]
pub struct GoogleCalendarEvent {
    pub id: String,
    pub summary: Option<String>,
    pub description: Option<String>,
    pub start: GoogleEventTime,
    pub end: GoogleEventTime,
    pub hangout_link: Option<String>,
}

/// A Google event as a plain value.
pub struct GoogleCalendarEventView {
    pub id: Seq<char>,
    pub summary: Option<Seq<char>>,
    pub description: Option<Seq<char>>,
    pub start: Option<i64>,
    pub start_date: Option<Seq<char>>,
    pub end: Option<i64>,
    pub end_date: Option<Seq<char>>,
    pub hangout_link: Option<Seq<char>>,
}

impl View for GoogleCalendarEvent {
    type V = GoogleCalendarEventView;

    open spec fn view(&self) -> GoogleCalendarEventView {
        GoogleCalendarEventView {
            id: self.id@,
            summary: opt_text(self.summary),
            description: opt_text(self.description),
            start: self.start.date_time,
            start_date: opt_text(self.start.date),
            end: self.end.date_time,
            end_date: opt_text(self.end.date),
            hangout_link: opt_text(self.hangout_link),
        }
    }
}

/// The link and the platform of the video meeting that a description
/// holds: those of the first link shape that matches it.
pub open spec fn video_info_of(description: Option<Seq<char>>) -> (Option<Seq<char>>, Option<Seq<char>>) {
    match description {
        Some(text) => match video_link_in(text) {
            Some(info) => (Some(info.url), Some(info.platform)),
            None => (None, None),
        },
        None => (None, None),
    }
}

/// Looks for a video meeting in a description. Returns the link, which is
/// the part of the description that the link shape matched, and the label
/// of its platform; nothing where no shape matches or there is no
/// description.
pub fn extract_video_info(description: &Option<String>) -> (r: (Option<String>, Option<String>))
    ensures
        (opt_text(r.0), opt_text(r.1)) == video_info_of(opt_text(*description)),
        r.0 matches Some(link) ==> description matches Some(text) && has_substring(text@, link@),
{
    match description {
        Some(text) => match find_video_link(text.as_str()) {
            Some(info) => (Some(info.url), Some(info.platform)),
            None => (None, None),
        },
        None => (None, None),
    }
}

/// The Google event that an event of the feed becomes, given the instants
/// to which its start and end resolved and the time of the sync.
pub open spec fn google_event_from(
    entry: IcsEventView,
    start: Option<i64>,
    end: Option<i64>,
    now: i64,
) -> GoogleCalendarEventView {
    GoogleCalendarEventView {
        id: match entry.uid {
            Some(uid) => uid,
            None => fallback_external_id(
                GOOGLE_TAG@,
                title_of(entry),
                match start {
                    Some(t) => t,
                    None => now,
                },
            ),
        },
        summary: entry.summary,
        description: entry.description,
        start,
        start_date: None,
        end,
        end_date: None,
        hangout_link: video_info_of(entry.description).0,
    }
}

/// Builds the Google event for an event of the feed from the instants to
/// which its start and end resolved.
pub fn build_google_event(entry: &IcsEvent, start: Option<i64>, end: Option<i64>, now: i64) -> (event:
    GoogleCalendarEvent)
    ensures
        event@ == google_event_from(entry@, start, end, now),
{
    let summary = clone_opt_text(&entry.summary);
    let description = clone_opt_text(&entry.description);
    let id = match &entry.uid {
        Some(uid) => uid.clone(),
        None => {
            let title = match &entry.summary {
                Some(summary) => summary.clone(),
                None => String::from_str("Untitled Event"),
            };
            let hashed_start = match start {
                Some(t) => t,
                None => now,
            };
            fallback_id(GOOGLE_TAG, title.as_str(), hashed_start)
        },
    };
    let (hangout_link, _platform) = extract_video_info(&description);
    GoogleCalendarEvent {
        id,
        summary,
        description,
        start: GoogleEventTime { date_time: start, date: None },
        end: GoogleEventTime { date_time: end, date: None },
        hangout_link,
    }
}

/// Turns an event of the feed into a Google event, at the time `now` of
/// the sync. An event without UID is identified by a hash of its title and
/// start behind the feed's tag.
pub fn convert_ics_event_to_google(entry: &IcsEvent, now: i64) -> (event: GoogleCalendarEvent)
    ensures
        is_google_event_of(event@, entry@, now),
{
    let start = parse_optional_datetime(&entry.start);
    let end = parse_optional_datetime(&entry.end);
    let event = build_google_event(entry, start, end, now);
    proof {
        let ls = match entry@.start {
            Some(value) => choose|local: Option<i64>| start == instant_of(value, local),
            None => None,
        };
        let le = match entry@.end {
            Some(value) => choose|local: Option<i64>| end == instant_of(value, local),
            None => None,
        };
        assert(start == optional_instant(entry@.start, ls));
        assert(end == optional_instant(entry@.end, le));
    }
    event
}

/// The message for an event without a start.
pub open spec fn missing_start_message() -> Seq<char> {
    "Event missing start time"@
}

/// The candidate that a Google event becomes for `account_id` at `now`, if
/// it has a start.
///
/// The video link is the event's own link, or else the first link found in
/// its description; the platform is the one that the link's shape names.
/// An event without an end ends one hour after its start.
pub open spec fn google_candidate(event: GoogleCalendarEventView, account_id: i64, now: i64) -> Option<
    CalendarEventView,
> {
    match event.start {
        None => None,
        Some(start_time) => {
            let video_link = match event.hangout_link {
                Some(link) => Some(link),
                None => match event.description {
                    Some(text) => match video_link_in(combined_text(Some(text), None)) {
                        Some(info) => Some(info.url),
                        None => None,
                    },
                    None => None,
                },
            };
            Some(
                CalendarEventView {
                    id: None,
                    external_id: event.id,
                    account_id,
                    title: match event.summary {
                        Some(summary) => summary,
                        None => "Untitled Event"@,
                    },
                    description: event.description,
                    start_time,
                    end_time: match event.end {
                        Some(t) => t,
                        None => shifted(start_time as int, 3600) as i64,
                    },
                    video_link,
                    video_platform: match video_link {
                        Some(link) => match video_link_in(combined_text(None, Some(link))) {
                            Some(info) => Some(info.platform),
                            None => None,
                        },
                        None => None,
                    },
                    snooze_count: 0,
                    has_alerted: false,
                    last_alert_threshold: None,
                    is_dismissed: false,
                    created_at: now,
                    updated_at: now,
                },
            )
        },
    }
}

/// Turns a Google event into a candidate for `account_id` at `now`. An
/// event without a start is refused.
pub fn convert_google_event(google_event: &GoogleCalendarEvent, account_id: i64, now: i64) -> (r: Result<
    CalendarEvent,
    String,
>)
    ensures
        match google_candidate(google_event@, account_id, now) {
            Some(candidate) => r is Ok && r->Ok_0@ == candidate,
            None => r is Err && r->Err_0@ == missing_start_message(),
        },
{
    let start_time = match google_event.start.date_time {
        Some(t) => t,
        None => {
            return Err(String::from_str("Event missing start time"));
        },
    };
    let end_time = match google_event.end.date_time {
        Some(t) => t,
        None => shift(start_time, 3600),
    };
    let video_link = match &google_event.hangout_link {
        Some(link) => Some(link.clone()),
        None => match &google_event.description {
            Some(text) => match extract_video_link(Some(text.as_str()), None) {
                Some(info) => Some(info.url),
                None => None,
            },
            None => None,
        },
    };
    let video_platform = match &video_link {
        Some(link) => match extract_video_link(None, Some(link.as_str())) {
            Some(info) => Some(info.platform),
            None => None,
        },
        None => None,
    };
    let title = match &google_event.summary {
        Some(summary) => summary.clone(),
        None => String::from_str("Untitled Event"),
    };
    Ok(
        CalendarEvent {
            id: None,
            external_id: google_event.id.clone(),
            account_id,
            title,
            description: clone_opt_text(&google_event.description),
            start_time,
            end_time,
            video_link,
            video_platform,
            snooze_count: 0,
            has_alerted: false,
            last_alert_threshold: None,
            is_dismissed: false,
            created_at: now,
            updated_at: now,
        },
    )
}

/// Whether a text begins, after leading white space, like an HTML page in
/// lower case.
pub open spec fn looks_like_html(text: Seq<char>) -> bool {
    ||| has_prefix(trimmed_start(text), "<!doctype html"@)
    ||| has_prefix(trimmed_start(text), "<html"@)
}

/// Whether a text begins, after leading white space, like an HTML page in
/// lower case.
pub fn text_looks_like_html(text: &str) -> (b: bool)
    ensures
        b == looks_like_html(text@),
{
    let chars = to_chars(text);
    let from = skip_spaces(&chars, 0);
    let doctype = to_chars("<!doctype html");
    let html = to_chars("<html");
    let b = matches_at(&chars, &doctype, from) || matches_at(&chars, &html, from);
    proof {
        let rest = trimmed_start(text@);
        assert(rest =~= chars@.skip(from as int));
        assert forall|needle: Seq<char>|
            occurs_at(chars@, needle, from as int) == #[trigger] has_prefix(rest, needle) by {
            if from + needle.len() <= chars@.len() {
                assert(chars@.subrange(from as int, from + needle.len()) =~= rest.subrange(
                    0,
                    needle.len() as int,
                ));
            }
        }
    }
    b
}

/// Whether `event` is what `entry` becomes as a Google event under some
/// placement of its wall-clock times by this machine's zone.
pub open spec fn is_google_event_of(
    event: GoogleCalendarEventView,
    entry: IcsEventView,
    now: i64,
) -> bool {
    exists|local_start: Option<i64>, local_end: Option<i64>|
        event == google_event_from(
            entry,
            optional_instant(entry.start, local_start),
            optional_instant(entry.end, local_end),
            now,
        )
}

/// Whether `events` are what `entries` become, one for one and in order.
pub open spec fn are_google_events_of(
    events: Seq<GoogleCalendarEventView>,
    entries: Seq<IcsEventView>,
    now: i64,
) -> bool {
    &&& events.len() == entries.len()
    &&& forall|k: int|
        0 <= k < entries.len() ==> is_google_event_of(#[trigger] events[k], entries[k], now)
}

/// Whether `events` are the Google events of a feed text: none for a text
/// that looks like an HTML page, else one for each event of the document,
/// in order.
pub open spec fn are_google_events_of_text(
    events: Seq<GoogleCalendarEventView>,
    text: Seq<char>,
    now: i64,
) -> bool {
    if looks_like_html(text) {
        events.len() == 0
    } else {
        ics_document(text) is Some && are_google_events_of(
            events,
            events_of(ics_document(text)->0),
            now,
        )
    }
}

/// Reads the Google events of a feed text, in order. A text that looks
/// like an HTML page has none; a text that is no calendar document fails
/// with the parser's message.
pub fn parse_ics_to_google_events(ics_data: &str, now: i64) -> (r: Result<
    Vec<GoogleCalendarEvent>,
    String,
>)
    ensures
        match r {
            Ok(events) => are_google_events_of_text(google_event_views(events@), ics_data@, now),
            Err(message) => {
                &&& !looks_like_html(ics_data@)
                &&& ics_document(ics_data@) is None
                &&& exists|detail: Seq<char>| message@ == "Failed to parse ICS: "@ + detail
            },
        },
{
    if text_looks_like_html(ics_data) {
        return Ok(Vec::new());
    }
    let entries = match read_events(ics_data) {
        Ok(entries) => entries,
        Err(detail) => {
            let mut message = String::from_str("Failed to parse ICS: ");
            message.append(detail.as_str());
            assert(message@ == "Failed to parse ICS: "@ + detail@);
            return Err(message);
        },
    };
    let mut events: Vec<GoogleCalendarEvent> = Vec::new();
    let mut i: usize = 0;
    while i < entries.len()
        invariant
            i <= entries.len(),
            events@.len() == i,
            forall|k: int|
                0 <= k < i ==> is_google_event_of((#[trigger] events@[k])@, entries@[k]@, now),
        decreases entries.len() - i,
    {
        events.push(convert_ics_event_to_google(&entries[i], now));
        i += 1;
    }
    proof {
        let views = google_event_views(events@);
        let sources = ics_event_views(entries@);
        assert forall|k: int| 0 <= k < sources.len() implies is_google_event_of(
            #[trigger] views[k],
            sources[k],
            now,
        ) by {
            assert(views[k] == events@[k]@);
            assert(sources[k] == entries@[k]@);
        }
    }
    Ok(events)
}

/// The candidates among the first `n` Google events: one for each event
/// with a start, in order.
pub open spec fn google_candidates_among(
    events: Seq<GoogleCalendarEventView>,
    account_id: i64,
    now: i64,
    n: int,
) -> Seq<CalendarEventView>
    decreases n,
{
    if n <= 0 || n > events.len() {
        Seq::empty()
    } else {
        match google_candidate(events[n - 1], account_id, now) {
            Some(candidate) => google_candidates_among(events, account_id, now, n - 1).push(
                candidate,
            ),
            None => google_candidates_among(events, account_id, now, n - 1),
        }
    }
}

/// The views of a list of Google events.
pub open spec fn google_event_views(events: Seq<GoogleCalendarEvent>) -> Seq<GoogleCalendarEventView> {
    events.map_values(|e: GoogleCalendarEvent| e@)
}

/// The candidates among Google events: one for each event with a start, in
/// order. Events without a start are passed over.
pub fn google_candidates(events: &Vec<GoogleCalendarEvent>, account_id: i64, now: i64) -> (candidates: Vec<
    CalendarEvent,
>)
    ensures
        event_views(candidates@) == google_candidates_among(
            google_event_views(events@),
            account_id,
            now,
            events@.len() as int,
        ),
        candidates@.len() <= events@.len(),
{
    let mut candidates: Vec<CalendarEvent> = Vec::new();
    let mut i: usize = 0;
    while i < events.len()
        invariant
            i <= events.len(),
            candidates@.len() <= i,
            event_views(candidates@) == google_candidates_among(
                google_event_views(events@),
                account_id,
                now,
                i as int,
            ),
        decreases events.len() - i,
    {
        assert(google_event_views(events@)[i as int] == events@[i as int]@);
        match convert_google_event(&events[i], account_id, now) {
            Ok(candidate) => {
                let ghost before = candidates@;
                candidates.push(candidate);
                assert(event_views(candidates@) =~= event_views(before).push(candidate@));
            },
            Err(_) => {},
        }
        i += 1;
    }
    candidates
}

/// What a fetch of the account's feed and the reading of its Google
/// events give, and how they leave the breaker.
///
/// The feed is fetched as `fetch_outcome` says. A failed fetch is the
/// failure. A fetched text that is neither an HTML page nor a calendar
/// document fails as unparsed. Any other text gives its Google events.
pub open spec fn google_events_fetched<G: Fn(&str) -> HttpAttempt, K: Fn() -> u64>(
    get: &G,
    clock: &K,
    address: Seq<char>,
    before: BreakerModel,
    now: i64,
    now_ms: u64,
    r: Result<Vec<GoogleCalendarEvent>, SyncError>,
    after: BreakerModel,
) -> bool {
    exists|fetched: Result<String, FetchError>|
        {
            &&& #[trigger] fetch_outcome(get, clock, address, before, now_ms, fetched, after)
            &&& match fetched {
                Err(e) => r == Err::<Vec<GoogleCalendarEvent>, SyncError>(SyncError::Fetch(e)),
                Ok(text) => google_events_read(text@, now, r),
            }
        }
}

/// What the reading of the Google events of a fetched text gives.
pub open spec fn google_events_read(
    text: Seq<char>,
    now: i64,
    r: Result<Vec<GoogleCalendarEvent>, SyncError>,
) -> bool {
    if !looks_like_html(text) && ics_document(text) is None {
        r matches Err(SyncError::Parse(_))
    } else {
        r matches Ok(events) && are_google_events_of_text(google_event_views(events@), text, now)
    }
}

/// Fetches the account's feed under `breaker` and reads its Google events.
pub fn sync_google_ics<G: Fn(&str) -> HttpAttempt, S: Fn(u64), K: Fn() -> u64>(
    account: &Account,
    breaker: &mut CircuitBreaker,
    now: i64,
    now_ms: u64,
    get: &G,
    sleep: &S,
    clock: &K,
) -> (r: Result<Vec<GoogleCalendarEvent>, SyncError>)
    requires
        forall|url: &str| get.requires((url,)),
        forall|ms: u64| sleep.requires((ms,)),
        clock.requires(()),
    ensures
        google_events_fetched(
            get,
            clock,
            account.auth_data@,
            old(breaker)@,
            now,
            now_ms,
            r,
            final(breaker)@,
        ),
{
    let fetched = fetch_ics_data(account.auth_data.as_str(), breaker, now_ms, get, sleep, clock);
    let ghost witness = fetched;
    let r = match fetched {
        Err(e) => Err(SyncError::Fetch(e)),
        Ok(text) => match parse_ics_to_google_events(text.as_str(), now) {
            Ok(events) => Ok(events),
            Err(message) => Err(SyncError::Parse(message)),
        },
    };
    proof {
        assert(fetch_outcome(
            get,
            clock,
            account.auth_data@,
            old(breaker)@,
            now_ms,
            witness,
            breaker@,
        ));
    }
    r
}

/// What the sync of a table with the Google events of the feed text `text`
/// gives. A text that is neither an HTML page nor a calendar document fails
/// as unparsed and leaves the table as it was. Any other text gives what
/// the reconciliation with the candidates among its events gives.
pub open spec fn google_feed_synced(
    before: Seq<CalendarEventView>,
    account_id: i64,
    text: Seq<char>,
    now: i64,
    outcome: Result<(usize, usize), SyncError>,
    after: Seq<CalendarEventView>,
) -> bool {
    if !looks_like_html(text) && ics_document(text) is None {
        outcome matches Err(SyncError::Parse(_)) && after == before
    } else {
        exists|events: Seq<GoogleCalendarEventView>|
            {
                &&& #[trigger] are_google_events_of_text(events, text, now)
                &&& candidates_synced(
                    before,
                    account_id,
                    google_candidates_among(events, account_id, now, events.len() as int),
                    now,
                    outcome,
                    after,
                )
            }
    }
}

/// What the sync of a Google account gives, and how it leaves the table
/// and the breaker.
///
/// The feed is fetched from the account's address as `fetch_outcome` says.
/// A failed fetch is the failure of the sync, and the table stays as it
/// was. A fetched text is synchronised as `google_feed_synced` says; the
/// result of a success is the record of its counts at `now`.
pub open spec fn google_synced<G: Fn(&str) -> HttpAttempt, K: Fn() -> u64>(
    get: &G,
    clock: &K,
    address: Seq<char>,
    account_id: i64,
    rows_before: Seq<CalendarEventView>,
    breaker_before: BreakerModel,
    now: i64,
    now_ms: u64,
    r: Result<SyncResult, SyncError>,
    rows_after: Seq<CalendarEventView>,
    breaker_after: BreakerModel,
) -> bool {
    exists|fetched: Result<String, FetchError>|
        {
            &&& #[trigger] fetch_outcome(
                get,
                clock,
                address,
                breaker_before,
                now_ms,
                fetched,
                breaker_after,
            )
            &&& is_report(r, account_id, now)
            &&& match fetched {
                Err(e) => r == Err::<SyncResult, SyncError>(SyncError::Fetch(e)) && rows_after
                    == rows_before,
                Ok(text) => google_feed_synced(
                    rows_before,
                    account_id,
                    text@,
                    now,
                    counts_of(r),
                    rows_after,
                ),
            }
        }
}

/// There are no more candidates among Google events than events.
pub proof fn lemma_candidates_among_are_few(
    events: Seq<GoogleCalendarEventView>,
    account_id: i64,
    now: i64,
    n: int,
)
    requires
        0 <= n <= events.len(),
    ensures
        google_candidates_among(events, account_id, now, n).len() <= n,
    decreases n,
{
    if n > 0 {
        lemma_candidates_among_are_few(events, account_id, now, n - 1);
    }
}

/// Whether every text that `get` can bring from `address` is an HTML page
/// or a calendar document with no more events than a table of `rows` rows
/// has room for.
pub open spec fn brings_google_calendars<G: Fn(&str) -> HttpAttempt>(
    get: &G,
    address: Seq<char>,
    rows: nat,
) -> bool {
    forall|text: Seq<char>| #[trigger]
        is_fetched_by(get, address, text) ==> looks_like_html(text) || (ics_document(
            text,
        ) matches Some(components) && rows + events_of(components).len() <= MAX_ROWS)
}

/// Success is owed where nothing stands against it: the sync of an accepted
/// address, at a breaker that admits the call, from a source of which every
/// response is a calendar document that the table has room for, succeeds.
pub proof fn lemma_google_sync_succeeds<G: Fn(&str) -> HttpAttempt, K: Fn() -> u64>(
    get: &G,
    clock: &K,
    address: Seq<char>,
    account_id: i64,
    rows_before: Seq<CalendarEventView>,
    breaker_before: BreakerModel,
    now: i64,
    now_ms: u64,
    r: Result<SyncResult, SyncError>,
    rows_after: Seq<CalendarEventView>,
    breaker_after: BreakerModel,
)
    requires
        google_synced(
            get,
            clock,
            address,
            account_id,
            rows_before,
            breaker_before,
            now,
            now_ms,
            r,
            rows_after,
            breaker_after,
        ),
        rows_wf(rows_before),
        is_accepted_address(address),
        breaker_before.admits(now_ms),
        always_answers(get, address),
        brings_google_calendars(get, address, rows_before.len()),
    ensures
        r is Ok,
        breaker_after == breaker_before.on_arrival(now_ms).after_success(),
{
    let fetched = choose|fetched: Result<String, FetchError>|
        {
            &&& #[trigger] fetch_outcome(
                get,
                clock,
                address,
                breaker_before,
                now_ms,
                fetched,
                breaker_after,
            )
            &&& is_report(r, account_id, now)
            &&& match fetched {
                Err(e) => r == Err::<SyncResult, SyncError>(SyncError::Fetch(e)) && rows_after
                    == rows_before,
                Ok(text) => google_feed_synced(
                    rows_before,
                    account_id,
                    text@,
                    now,
                    counts_of(r),
                    rows_after,
                ),
            }
        };
    lemma_answered_fetch_succeeds(get, clock, address, breaker_before, now_ms, fetched, breaker_after);
    let text = fetched->Ok_0@;
    assert(is_fetched_by(get, address, text));
    let events = choose|events: Seq<GoogleCalendarEventView>|
        {
            &&& #[trigger] are_google_events_of_text(events, text, now)
            &&& candidates_synced(
                rows_before,
                account_id,
                google_candidates_among(events, account_id, now, events.len() as int),
                now,
                counts_of(r),
                rows_after,
            )
        };
    let candidates = google_candidates_among(events, account_id, now, events.len() as int);
    assert(rows_before.len() + events.len() <= MAX_ROWS) by {
        if !looks_like_html(text) {
            assert(are_google_events_of(events, events_of(ics_document(text)->0), now));
        }
    }
    lemma_candidates_among_are_few(events, account_id, now, events.len() as int);
    lemma_prefix_grows_by_candidates(
        Tally { rows: rows_before, added: 0, updated: 0 },
        account_id,
        candidates,
        now,
        candidates.len() as int,
    );
}

/// The candidate that a stable event of the feed becomes for `account_id`
/// in a sync at `now`.
pub open spec fn stable_google_candidate(entry: IcsEventView, account_id: i64, now: i64) -> CalendarEventView {
    google_candidate(
        google_event_from(
            entry,
            optional_instant(entry.start, None),
            optional_instant(entry.end, None),
            now,
        ),
        account_id,
        now,
    )->0
}

/// The candidates that stable events of the feed become for `account_id`
/// in a sync at `now`.
pub open spec fn stable_google_candidates(entries: Seq<IcsEventView>, account_id: i64, now: i64) -> Seq<
    CalendarEventView,
> {
    Seq::new(entries.len(), |k: int| stable_google_candidate(entries[k], account_id, now))
}

/// Whether the events of a feed become the same candidates in every sync,
/// and no two of them share an external identity and differ in title,
/// description, start, end or video link.
pub open spec fn is_stable_google_feed(entries: Seq<IcsEventView>) -> bool {
    &&& forall|k: int| 0 <= k < entries.len() ==> is_stable_entry(#[trigger] entries[k])
    &&& candidates_agree(stable_google_candidates(entries, 0, 0))
}

/// Stable events have one reading: whatever this machine's zone, the
/// candidates among the first `n` of their Google events are the first `n`
/// of `stable_google_candidates`.
pub proof fn lemma_stable_google_events_have_one_reading(
    events: Seq<GoogleCalendarEventView>,
    entries: Seq<IcsEventView>,
    account_id: i64,
    now: i64,
    n: int,
)
    requires
        forall|k: int| 0 <= k < entries.len() ==> is_stable_entry(#[trigger] entries[k]),
        are_google_events_of(events, entries, now),
        0 <= n <= entries.len(),
    ensures
        google_candidates_among(events, account_id, now, n) == stable_google_candidates(
            entries,
            account_id,
            now,
        ).take(n),
    decreases n,
{
    let all = stable_google_candidates(entries, account_id, now);
    if n > 0 {
        lemma_stable_google_events_have_one_reading(events, entries, account_id, now, n - 1);
        assert(is_stable_entry(entries[n - 1]));
        assert(is_google_event_of(events[n - 1], entries[n - 1], now));
        assert(google_candidate(events[n - 1], account_id, now) == Some(all[n - 1]));
        assert(all.take(n) =~= all.take(n - 1).push(all[n - 1]));
    } else {
        assert(all.take(0) =~= Seq::<CalendarEventView>::empty());
    }
}

/// Idempotent sync: where the source serves one feed text, and a sync has
/// succeeded, a second sync at whatever time succeeds, adds nothing,
/// updates nothing, and leaves every row as the first sync left it.
///
/// This holds of a feed whose events become the same candidates in every
/// sync (see `is_stable_google_feed`).
pub proof fn lemma_second_google_sync_changes_nothing<G: Fn(&str) -> HttpAttempt, K: Fn() -> u64>(
    get: &G,
    clock: &K,
    address: Seq<char>,
    account_id: i64,
    feed: Seq<char>,
    rows_before: Seq<CalendarEventView>,
    breaker_before: BreakerModel,
    first_now: i64,
    first_ms: u64,
    first: Result<SyncResult, SyncError>,
    rows_between: Seq<CalendarEventView>,
    breaker_between: BreakerModel,
    second_now: i64,
    second_ms: u64,
    second: Result<SyncResult, SyncError>,
    rows_after: Seq<CalendarEventView>,
    breaker_after: BreakerModel,
)
    requires
        rows_wf(rows_before),
        serves_only(get, address, feed),
        !looks_like_html(feed),
        ics_document(feed) matches Some(components) && is_stable_google_feed(events_of(components)),
        google_synced(
            get,
            clock,
            address,
            account_id,
            rows_before,
            breaker_before,
            first_now,
            first_ms,
            first,
            rows_between,
            breaker_between,
        ),
        first is Ok,
        google_synced(
            get,
            clock,
            address,
            account_id,
            rows_between,
            breaker_between,
            second_now,
            second_ms,
            second,
            rows_after,
            breaker_after,
        ),
    ensures
        second matches Ok(result) && result.events_added == 0 && result.events_updated == 0,
        rows_after == rows_between,
{
    let entries = events_of(ics_document(feed)->0);
    let n = entries.len() as int;
    let fetched = choose|fetched: Result<String, FetchError>|
        {
            &&& #[trigger] fetch_outcome(
                get,
                clock,
                address,
                breaker_before,
                first_ms,
                fetched,
                breaker_between,
            )
            &&& is_report(first, account_id, first_now)
            &&& match fetched {
                Err(e) => first == Err::<SyncResult, SyncError>(SyncError::Fetch(e))
                    && rows_between == rows_before,
                Ok(text) => google_feed_synced(
                    rows_before,
                    account_id,
                    text@,
                    first_now,
                    counts_of(first),
                    rows_between,
                ),
            }
        };
    assert(fetched is Ok);
    assert(is_accepted_address(address));
    assert(breaker_before.admits(first_ms));
    lemma_answered_fetch_succeeds(
        get,
        clock,
        address,
        breaker_before,
        first_ms,
        fetched,
        breaker_between,
    );
    assert(breaker_between.admits(second_ms));
    let again = choose|fetched: Result<String, FetchError>|
        {
            &&& #[trigger] fetch_outcome(
                get,
                clock,
                address,
                breaker_between,
                second_ms,
                fetched,
                breaker_after,
            )
            &&& is_report(second, account_id, second_now)
            &&& match fetched {
                Err(e) => second == Err::<SyncResult, SyncError>(SyncError::Fetch(e))
                    && rows_after == rows_between,
                Ok(text) => google_feed_synced(
                    rows_between,
                    account_id,
                    text@,
                    second_now,
                    counts_of(second),
                    rows_after,
                ),
            }
        };
    lemma_answered_fetch_succeeds(
        get,
        clock,
        address,
        breaker_between,
        second_ms,
        again,
        breaker_after,
    );
    assert(fetched->Ok_0@ == feed);
    assert(again->Ok_0@ == feed);
    let seen = choose|events: Seq<GoogleCalendarEventView>|
        {
            &&& #[trigger] are_google_events_of_text(events, feed, first_now)
            &&& candidates_synced(
                rows_before,
                account_id,
                google_candidates_among(events, account_id, first_now, events.len() as int),
                first_now,
                counts_of(first),
                rows_between,
            )
        };
    let seen_again = choose|events: Seq<GoogleCalendarEventView>|
        {
            &&& #[trigger] are_google_events_of_text(events, feed, second_now)
            &&& candidates_synced(
                rows_between,
                account_id,
                google_candidates_among(events, account_id, second_now, events.len() as int),
                second_now,
                counts_of(second),
                rows_after,
            )
        };
    lemma_stable_google_events_have_one_reading(seen, entries, account_id, first_now, n);
    lemma_stable_google_events_have_one_reading(seen_again, entries, account_id, second_now, n);
    let once = stable_google_candidates(entries, account_id, first_now);
    let twice = stable_google_candidates(entries, account_id, second_now);
    let plain = stable_google_candidates(entries, 0, 0);
    assert(once.take(n) =~= once);
    assert(twice.take(n) =~= twice);
    assert forall|i: int, j: int|
        0 <= i < j < once.len() && (#[trigger] once[i]).external_id == (
        #[trigger] once[j]).external_id implies !once[i].content_differs(once[j]) by {
        assert(is_stable_entry(entries[i]) && is_stable_entry(entries[j]));
        assert(plain[i].external_id == plain[j].external_id);
    }
    assert(same_content(once, twice)) by {
        assert forall|k: int| 0 <= k < once.len() implies {
            &&& (#[trigger] twice[k]).external_id == once[k].external_id
            &&& !once[k].content_differs(twice[k])
        } by {
            assert(is_stable_entry(entries[k]));
        }
    }
    lemma_second_run_changes_nothing(rows_before, account_id, once, twice, first_now, second_now);
}

/// When a Google sync fails, and with which failure.
///
/// The address is refused exactly when the sync fails as an invalid
/// address, and an accepted address meets a breaker that does not admit the
/// call exactly when the sync fails as rejected; both leave the breaker as
/// it was. A failure of the requests is one that `get` brought, counted
/// once by the breaker at a reading of the clock. A sync fails as unparsed
/// or for want of room only on a text that `get` brought. Every failure
/// leaves the table as it was. A success had a text that `get` brought,
/// and the breaker has seen a success.
pub proof fn lemma_google_sync_failures<G: Fn(&str) -> HttpAttempt, K: Fn() -> u64>(
    get: &G,
    clock: &K,
    address: Seq<char>,
    account_id: i64,
    rows_before: Seq<CalendarEventView>,
    breaker_before: BreakerModel,
    now: i64,
    now_ms: u64,
    r: Result<SyncResult, SyncError>,
    rows_after: Seq<CalendarEventView>,
    breaker_after: BreakerModel,
)
    requires
        rows_wf(rows_before),
        google_synced(
            get,
            clock,
            address,
            account_id,
            rows_before,
            breaker_before,
            now,
            now_ms,
            r,
            rows_after,
            breaker_after,
        ),
    ensures
        !is_accepted_address(address) <==> r matches Err(SyncError::Fetch(FetchError::InvalidUrl(_))),
        is_accepted_address(address) && !breaker_before.admits(now_ms) <==> r matches Err(
            SyncError::Fetch(FetchError::CircuitOpen),
        ),
        !is_accepted_address(address) || !breaker_before.admits(now_ms) ==> breaker_after
            == breaker_before,
        r matches Err(SyncError::Fetch(FetchError::Failed(failure))) ==> {
            &&& is_fetch_failure(get, address, failure)
            &&& failed_at_reading(clock, breaker_before.on_arrival(now_ms), breaker_after)
            &&& breaker_after.failure_count == bumped(breaker_before.on_arrival(now_ms).failure_count)
        },
        r matches Err(SyncError::Parse(_)) ==> exists|text: Seq<char>| #[trigger]
            is_fetched_by(get, address, text) && ics_document(text) is None,
        r matches Err(SyncError::StoreFull) ==> exists|text: Seq<char>| #[trigger]
            is_fetched_by(get, address, text) && ics_document(text) is Some && rows_before.len()
                + events_of(ics_document(text)->0).len() > MAX_ROWS,
        !(r matches Err(SyncError::UnknownProvider(_))),
        r is Err ==> rows_after == rows_before,
        r is Ok ==> {
            &&& exists|text: Seq<char>| is_fetched_by(get, address, text)
            &&& breaker_after == breaker_before.on_arrival(now_ms).after_success()
        },
{
    let fetched = choose|fetched: Result<String, FetchError>|
        {
            &&& #[trigger] fetch_outcome(
                get,
                clock,
                address,
                breaker_before,
                now_ms,
                fetched,
                breaker_after,
            )
            &&& is_report(r, account_id, now)
            &&& match fetched {
                Err(e) => r == Err::<SyncResult, SyncError>(SyncError::Fetch(e)) && rows_after
                    == rows_before,
                Ok(text) => google_feed_synced(
                    rows_before,
                    account_id,
                    text@,
                    now,
                    counts_of(r),
                    rows_after,
                ),
            }
        };
    if fetched is Ok {
        let text = fetched->Ok_0@;
        assert(is_fetched_by(get, address, text));
        if looks_like_html(text) || ics_document(text) is Some {
            let events = choose|events: Seq<GoogleCalendarEventView>|
                {
                    &&& #[trigger] are_google_events_of_text(events, text, now)
                    &&& candidates_synced(
                        rows_before,
                        account_id,
                        google_candidates_among(events, account_id, now, events.len() as int),
                        now,
                        counts_of(r),
                        rows_after,
                    )
                };
            let candidates = google_candidates_among(events, account_id, now, events.len() as int);
            if !looks_like_html(text) {
                assert(are_google_events_of(events, events_of(ics_document(text)->0), now));
            }
            lemma_candidates_among_are_few(events, account_id, now, events.len() as int);
            lemma_prefix_grows_by_candidates(
                Tally { rows: rows_before, added: 0, updated: 0 },
                account_id,
                candidates,
                now,
                candidates.len() as int,
            );
        }
    }
}

/// Synchronises a Google account: fetches its feed under `breaker`, reads
/// its events, and reconciles the account's events with those that have a
/// start.
///
/// The result, the table and the breaker are as `google_synced` says.
/// Whatever the network brings, the table stays well formed and every row
/// keeps its place and its alert state.
pub fn sync_google_calendar<G: Fn(&str) -> HttpAttempt, S: Fn(u64), K: Fn() -> u64>(
    account: &Account,
    store: &mut EventStore,
    breaker: &mut CircuitBreaker,
    now: i64,
    now_ms: u64,
    get: &G,
    sleep: &S,
    clock: &K,
) -> (r: Result<SyncResult, SyncError>)
    requires
        old(store).wf(),
        forall|url: &str| get.requires((url,)),
        forall|ms: u64| sleep.requires((ms,)),
        clock.requires(()),
    ensures
        final(store).wf(),
        keeps_rows(old(store).rows(), final(store).rows()),
        google_synced(
            get,
            clock,
            account.auth_data@,
            account_key(account.id),
            old(store).rows(),
            old(breaker)@,
            now,
            now_ms,
            r,
            final(store).rows(),
            final(breaker)@,
        ),
        !is_accepted_address(account.auth_data@) <==> r matches Err(
            SyncError::Fetch(FetchError::InvalidUrl(_)),
        ),
        is_accepted_address(account.auth_data@) && !old(breaker)@.admits(now_ms) <==> r matches Err(
            SyncError::Fetch(FetchError::CircuitOpen),
        ),
        r is Err ==> final(store).rows() == old(store).rows(),
{
    let account_id = match account.id {
        Some(id) => id,
        None => 0,
    };
    let read = sync_google_ics(account, breaker, now, now_ms, get, sleep, clock);
    let ghost fetched = choose|fetched: Result<String, FetchError>|
        {
            &&& #[trigger] fetch_outcome(
                get,
                clock,
                account.auth_data@,
                old(breaker)@,
                now_ms,
                fetched,
                breaker@,
            )
            &&& match fetched {
                Err(e) => read == Err::<Vec<GoogleCalendarEvent>, SyncError>(SyncError::Fetch(e)),
                Ok(text) => google_events_read(text@, now, read),
            }
        };
    let events = match read {
        Ok(events) => events,
        Err(e) => {
            proof {
                lemma_rows_keep_themselves(store.rows());
                lemma_google_sync_failures(
                    get,
                    clock,
                    account.auth_data@,
                    account_id,
                    old(store).rows(),
                    old(breaker)@,
                    now,
                    now_ms,
                    Err(e),
                    store.rows(),
                    breaker@,
                );
            }
            return Err(e);
        },
    };
    let candidates = google_candidates(&events, account_id, now);
    let r = match sync_candidates(store, account_id, &candidates, now) {
        Ok((added, updated)) => Ok(SyncResult::with_counts_at(account_id, added, updated, now)),
        Err(e) => Err(e),
    };
    proof {
        let views = google_event_views(events@);
        assert(fetched is Ok);
        assert(are_google_events_of_text(views, fetched->Ok_0@, now));
        assert(views.len() == events@.len());
        lemma_google_sync_failures(
            get,
            clock,
            account.auth_data@,
            account_id,
            old(store).rows(),
            old(breaker)@,
            now,
            now_ms,
            r,
            store.rows(),
            breaker@,
        );
    }
    r
}

/// Tests whether the account's feed can be fetched: it is reachable
/// exactly when a fetch of it succeeds.
pub fn test_connection<G: Fn(&str) -> HttpAttempt, S: Fn(u64), K: Fn() -> u64>(
    account: &Account,
    breaker: &mut CircuitBreaker,
    now_ms: u64,
    get: &G,
    sleep: &S,
    clock: &K,
) -> (reachable: bool)
    requires
        forall|url: &str| get.requires((url,)),
        forall|ms: u64| sleep.requires((ms,)),
        clock.requires(()),
    ensures
        connection_tested(
            get,
            clock,
            account.auth_data@,
            old(breaker)@,
            now_ms,
            reachable,
            final(breaker)@,
        ),
        reachable ==> exists|text: Seq<char>| is_fetched_by(get, account.auth_data@, text),
        !is_accepted_address(account.auth_data@) || !old(breaker)@.admits(now_ms) ==> !reachable
            && final(breaker)@ == old(breaker)@,
{
    let fetched = fetch_ics_data(account.auth_data.as_str(), breaker, now_ms, get, sleep, clock);
    assert(fetch_outcome(get, clock, account.auth_data@, old(breaker)@, now_ms, fetched, breaker@));
    proof {
        if fetched is Ok {
            assert(is_fetched_by(get, account.auth_data@, fetched->Ok_0@));
        }
    }
    fetched.is_ok()
}

} // verus!
