//! Normalisation: from the events of a calendar document to candidates for
//! the table of events, with every date-time resolved to a UTC instant.
//!
//! An event without a summary is titled "Untitled Event". An event without
//! a resolvable start starts at the time of the sync; an event without a
//! resolvable end ends one hour after its start. An event without a UID is
//! identified by a hash of its title and start, behind the feed's tag, so
//! that the same event gets the same identity in every sync.
use vstd::prelude::*;
use vstd::std_specs::hash::DefaultHasherAdditionalSpecFns;
use vstd::string::StringSliceAdditionalSpecFns;
use std::collections::hash_map::DefaultHasher;
use std::hash::Hasher;
use crate::calendar::common::{instant_of, parse_optional_datetime, IcalDateTimeView};
use crate::calendar::reconcile::candidates_agree;
use crate::calendar::ics::{
    events_of, ics_document, ics_event_views, read_events, IcsEvent, IcsEventView,
};
use crate::clock::{shift, shifted};
use crate::models::event::{event_views, CalendarEvent, CalendarEventView};
use crate::text::{hex_lower, push_hex, push_signed_decimal, signed_decimal};
use crate::utils::{combined_text, extract_video_link, video_link_in};

verus! {

/// The hash of a text: that of the standard hasher after the text's bytes
/// and the byte `0xff`.
pub open spec fn text_hash(text: Seq<char>) -> u64 {
    DefaultHasher::spec_finish(seq![vstd::utf8::encode_utf8(text), seq![0xffu8]])
}

/// The identity of an event without a UID: the feed's tag, then the hash of
/// the title followed by the start in decimal, in lower-case hexadecimal.
pub open spec fn fallback_external_id(tag: Seq<char>, title: Seq<char>, start: i64) -> Seq<char> {
    tag + hex_lower(text_hash(title + signed_decimal(start as int)) as nat)
}

/// The hash of a text.
pub fn hash_text(text: &str) -> (h: u64)
    ensures
        h == text_hash(text@),
{
    let mut hasher = DefaultHasher::new();
    hasher.write(text.as_bytes());
    let end: [u8; 1] = [0xff];
    hasher.write(end.as_slice());
    proof {
        assert(end@ =~= seq![0xffu8]);
        assert(hasher@ =~= seq![vstd::utf8::encode_utf8(text@), seq![0xffu8]]);
    }
    hasher.finish()
}

/// The identity of an event without a UID.
pub fn fallback_id(tag: &str, title: &str, start: i64) -> (id: String)
    ensures
        id@ == fallback_external_id(tag@, title@, start),
{
    let mut hashed = String::from_str(title);
    push_signed_decimal(&mut hashed, start);
    let h = hash_text(hashed.as_str());
    let mut id = String::from_str(tag);
    push_hex(&mut id, h);
    id
}

/// The instant of an optional feed date-time, given the placement by this
/// machine's zone; a missing date-time has none.
pub open spec fn optional_instant(dt: Option<IcalDateTimeView>, local: Option<i64>) -> Option<i64> {
    match dt {
        Some(value) => instant_of(value, local),
        None => None,
    }
}

/// The title of an event: its summary, or "Untitled Event".
pub open spec fn title_of(entry: IcsEventView) -> Seq<char> {
    match entry.summary {
        Some(summary) => summary,
        None => "Untitled Event"@,
    }
}

/// The description of an event; a missing one counts as empty.
pub open spec fn description_of(entry: IcsEventView) -> Seq<char> {
    match entry.description {
        Some(description) => description,
        None => Seq::empty(),
    }
}

/// The candidate that an event of a feed becomes, given the instants to
/// which its start and end resolved and the time of the sync.
pub open spec fn candidate_from(
    entry: IcsEventView,
    tag: Seq<char>,
    start: Option<i64>,
    end: Option<i64>,
    now: i64,
) -> CalendarEventView {
    let title = title_of(entry);
    let start_time = match start {
        Some(t) => t,
        None => now,
    };
    let end_time = match end {
        Some(t) => t,
        None => shifted(start_time as int, 3600) as i64,
    };
    let video = video_link_in(combined_text(Some(description_of(entry)), None));
    CalendarEventView {
        id: None,
        external_id: match entry.uid {
            Some(uid) => uid,
            None => fallback_external_id(tag, title, start_time),
        },
        account_id: 0,
        title,
        description: Some(description_of(entry)),
        start_time,
        end_time,
        video_link: match video {
            Some(info) => Some(info.url),
            None => None,
        },
        video_platform: match video {
            Some(info) => Some(info.platform),
            None => None,
        },
        snooze_count: 0,
        has_alerted: false,
        last_alert_threshold: None,
        is_dismissed: false,
        created_at: now,
        updated_at: now,
    }
}

/// Whether `candidate` is what `entry` becomes under some placement of its
/// wall-clock times by this machine's zone.
pub open spec fn is_candidate_of(candidate: CalendarEventView, entry: IcsEventView, tag: Seq<char>, now: i64) -> bool {
    exists|local_start: Option<i64>, local_end: Option<i64>|
        candidate == candidate_from(
            entry,
            tag,
            optional_instant(entry.start, local_start),
            optional_instant(entry.end, local_end),
            now,
        )
}

/// Builds the candidate for an event of a feed from the instants to which
/// its start and end resolved.
pub fn build_candidate(entry: &IcsEvent, tag: &str, start: Option<i64>, end: Option<i64>, now: i64) -> (candidate:
    CalendarEvent)
    ensures
        candidate@ == candidate_from(entry@, tag@, start, end, now),
{
    let title = match &entry.summary {
        Some(summary) => summary.clone(),
        None => String::from_str("Untitled Event"),
    };
    let description = match &entry.description {
        Some(description) => description.clone(),
        None => String::new(),
    };
    let video = extract_video_link(Some(description.as_str()), None);
    let start_time = match start {
        Some(t) => t,
        None => now,
    };
    let end_time = match end {
        Some(t) => t,
        None => shift(start_time, 3600),
    };
    let external_id = match &entry.uid {
        Some(uid) => uid.clone(),
        None => fallback_id(tag, title.as_str(), start_time),
    };
    let (video_link, video_platform) = match video {
        Some(info) => (Some(info.url), Some(info.platform)),
        None => (None, None),
    };
    CalendarEvent {
        id: None,
        external_id,
        account_id: 0,
        title,
        description: Some(description),
        start_time,
        end_time,
        video_link,
        video_platform,
        snooze_count: 0,
        has_alerted: false,
        last_alert_threshold: None,
        is_dismissed: false,
        created_at: now,
        updated_at: now,
    }
}

/// Turns an event of a feed into a candidate, at the time `now` of the
/// sync. `tag` is put before the hash that identifies an event without UID.
pub fn normalize_event(entry: &IcsEvent, tag: &str, now: i64) -> (candidate: CalendarEvent)
    ensures
        is_candidate_of(candidate@, entry@, tag@, now),
{
    let start = parse_optional_datetime(&entry.start);
    let end = parse_optional_datetime(&entry.end);
    let candidate = build_candidate(entry, tag, start, end, now);
    proof {
        let ls = match entry@.start {
            Some(value) => choose|local: Option<i64>| start == instant_of(value, local),
            None => None,
        };
        let le = match entry@.end {
            Some(value) => choose|local: Option<i64>| end == instant_of(value, local),
            None => None,
        };
        assert(start == optional_instant(entry@.start, ls));
        assert(end == optional_instant(entry@.end, le));
    }
    candidate
}

/// Whether `candidates` are what `entries` become, one for one and in
/// order.
pub open spec fn are_candidates_of(
    candidates: Seq<CalendarEventView>,
    entries: Seq<IcsEventView>,
    tag: Seq<char>,
    now: i64,
) -> bool {
    &&& candidates.len() == entries.len()
    &&& forall|k: int|
        0 <= k < entries.len() ==> is_candidate_of(#[trigger] candidates[k], entries[k], tag, now)
}

/// Turns the events of a feed into candidates, one for one and in order.
pub fn normalize_events(entries: &Vec<IcsEvent>, tag: &str, now: i64) -> (candidates: Vec<CalendarEvent>)
    ensures
        are_candidates_of(event_views(candidates@), ics_event_views(entries@), tag@, now),
{
    let mut candidates: Vec<CalendarEvent> = Vec::new();
    let mut i: usize = 0;
    while i < entries.len()
        invariant
            i <= entries.len(),
            candidates@.len() == i,
            forall|k: int|
                0 <= k < i ==> is_candidate_of(
                    (#[trigger] candidates@[k])@,
                    entries@[k]@,
                    tag@,
                    now,
                ),
        decreases entries.len() - i,
    {
        let candidate = normalize_event(&entries[i], tag, now);
        candidates.push(candidate);
        i += 1;
    }
    proof {
        let views = event_views(candidates@);
        let sources = ics_event_views(entries@);
        assert forall|k: int| 0 <= k < sources.len() implies is_candidate_of(
            #[trigger] views[k],
            sources[k],
            tag@,
            now,
        ) by {
            assert(views[k] == candidates@[k]@);
            assert(sources[k] == entries@[k]@);
        }
    }
    candidates
}

/// Whether a feed date-time has the same instant on every machine: it is
/// UTC-tagged, or its zone is in the time-zone database.
pub open spec fn is_placed(dt: IcalDateTimeView) -> bool {
    dt is Utc || !(dt.zoned() is UnknownZone)
}

/// Whether an event becomes the same candidate in every sync, but for the
/// time of the sync that the candidate carries: its start resolves, and
/// neither its start nor its end is placed by the machine's zone.
pub open spec fn is_stable_entry(entry: IcsEventView) -> bool {
    &&& entry.start matches Some(start) && is_placed(start) && instant_of(start, None) is Some
    &&& entry.end matches Some(end) ==> is_placed(end)
}

/// The candidate that a stable event becomes in a sync at `now`.
pub open spec fn stable_candidate(entry: IcsEventView, tag: Seq<char>, now: i64) -> CalendarEventView {
    candidate_from(
        entry,
        tag,
        optional_instant(entry.start, None),
        optional_instant(entry.end, None),
        now,
    )
}

/// The candidates that stable events become in a sync at `now`.
pub open spec fn stable_candidates(entries: Seq<IcsEventView>, tag: Seq<char>, now: i64) -> Seq<
    CalendarEventView,
> {
    Seq::new(entries.len(), |k: int| stable_candidate(entries[k], tag, now))
}

/// Whether the events of a feed become the same candidates in every sync,
/// and no two of them share an external identity and differ in title,
/// description, start, end or video link.
pub open spec fn is_stable_feed(entries: Seq<IcsEventView>, tag: Seq<char>) -> bool {
    &&& forall|k: int| 0 <= k < entries.len() ==> is_stable_entry(#[trigger] entries[k])
    &&& candidates_agree(stable_candidates(entries, tag, 0))
}

/// Stable events have one reading: whatever this machine's zone, their
/// candidates in a sync at `now` are `stable_candidates`.
pub proof fn lemma_stable_events_have_one_reading(
    candidates: Seq<CalendarEventView>,
    entries: Seq<IcsEventView>,
    tag: Seq<char>,
    now: i64,
)
    requires
        forall|k: int| 0 <= k < entries.len() ==> is_stable_entry(#[trigger] entries[k]),
        are_candidates_of(candidates, entries, tag, now),
    ensures
        candidates == stable_candidates(entries, tag, now),
{
    assert forall|k: int| 0 <= k < entries.len() implies candidates[k] == stable_candidate(
        entries[k],
        tag,
        now,
    ) by {
        assert(is_stable_entry(entries[k]));
        assert(is_candidate_of(candidates[k], entries[k], tag, now));
    }
    assert(candidates =~= stable_candidates(entries, tag, now));
}

/// Whether a feed deserves a warning: its text is not empty, and yet it
/// gave no event.
pub fn is_suspiciously_empty(raw_text: &str, candidates: &Vec<CalendarEvent>) -> (b: bool)
    ensures
        b == (candidates@.len() == 0 && raw_text@.len() > 0),
{
    candidates.len() == 0 && !raw_text.is_empty()
}

/// The message of a feed text that is no calendar document.
pub open spec fn parse_failure_message(detail: Seq<char>) -> Seq<char> {
    "Failed to parse ICS data: "@ + detail
}

/// Normalises the text of a feed: parses it, and turns each event into a
/// candidate, in order.
///
/// A text that is no calendar document fails with the parser's message.
/// Otherwise there is one candidate for each event of the document.
pub fn normalize(raw_text: &str, tag: &str, now: i64) -> (r: Result<Vec<CalendarEvent>, String>)
    ensures
        match r {
            Ok(candidates) => ics_document(raw_text@) matches Some(components)
                && are_candidates_of(event_views(candidates@), events_of(components), tag@, now),
            Err(message) => ics_document(raw_text@) is None && exists|detail: Seq<char>|
                message@ == parse_failure_message(detail),
        },
{
    match read_events(raw_text) {
        Ok(entries) => Ok(normalize_events(&entries, tag, now)),
        Err(detail) => {
            let mut message = String::from_str("Failed to parse ICS data: ");
            message.append(detail.as_str());
            assert(message@ == parse_failure_message(detail@));
            Err(message)
        },
    }
}

} // verus!
