//! The table of events.
//!
//! `EventStore` holds the rows in memory, in the order in which they were
//! inserted. A row's identity is its position plus one; no two rows share an
//! external identity within one account.
use vstd::prelude::*;
use crate::models::event::{clone_opt_text, event_views, CalendarEvent, CalendarEventView};
use crate::text::str_eq;

verus! {

/// The most rows a store can hold.
pub const MAX_ROWS: usize = 0x7fff_ffff;

/// The most snoozes an event can have.
pub const MAX_SNOOZES: i32 = 3;

/// The part of a row that only the scheduler and the user change.
pub struct AlertState {
    pub snooze_count: i32,
    pub has_alerted: bool,
    pub last_alert_threshold: Option<i32>,
    pub is_dismissed: bool,
}

impl CalendarEventView {
    /// The part of the row that only the scheduler and the user change.
    pub open spec fn alert_state(self) -> AlertState {
        AlertState {
            snooze_count: self.snooze_count,
            has_alerted: self.has_alerted,
            last_alert_threshold: self.last_alert_threshold,
            is_dismissed: self.is_dismissed,
        }
    }

    /// Whether the row belongs to `account_id` under `external_id`.
    pub open spec fn has_key(self, external_id: Seq<char>, account_id: i64) -> bool {
        self.external_id == external_id && self.account_id == account_id
    }

    /// Whether a candidate differs from this row in what a sync may change:
    /// title, description, start, end or video link.
    pub open spec fn content_differs(self, candidate: CalendarEventView) -> bool {
        ||| self.title != candidate.title
        ||| self.description != candidate.description
        ||| self.start_time != candidate.start_time
        ||| self.end_time != candidate.end_time
        ||| self.video_link != candidate.video_link
    }

    /// This row with the content of `candidate`, touched at `now`. Identity,
    /// creation time and alert state stay.
    pub open spec fn with_content_of(self, candidate: CalendarEventView, now: i64) -> CalendarEventView {
        CalendarEventView {
            title: candidate.title,
            description: candidate.description,
            start_time: candidate.start_time,
            end_time: candidate.end_time,
            video_link: candidate.video_link,
            video_platform: candidate.video_platform,
            updated_at: now,
            ..self
        }
    }
}

/// The row that a candidate becomes when it is inserted as row `id` of
/// `account_id` at `now`: its content, and the default alert state.
pub open spec fn inserted_row(candidate: CalendarEventView, account_id: i64, id: i64, now: i64) -> CalendarEventView {
    CalendarEventView {
        id: Some(id),
        external_id: candidate.external_id,
        account_id,
        title: candidate.title,
        description: candidate.description,
        start_time: candidate.start_time,
        end_time: candidate.end_time,
        video_link: candidate.video_link,
        video_platform: candidate.video_platform,
        snooze_count: 0,
        has_alerted: false,
        last_alert_threshold: None,
        is_dismissed: false,
        created_at: now,
        updated_at: now,
    }
}

/// The position of the row of `account_id` under `external_id` among the
/// first `n` rows, if there is one.
pub open spec fn position_among(
    rows: Seq<CalendarEventView>,
    external_id: Seq<char>,
    account_id: i64,
    n: int,
) -> Option<int>
    decreases n,
{
    if n <= 0 || n > rows.len() {
        None
    } else if rows[n - 1].has_key(external_id, account_id) {
        Some(n - 1)
    } else {
        position_among(rows, external_id, account_id, n - 1)
    }
}

/// The position of the row of `account_id` under `external_id`, if there is
/// one.
pub open spec fn position_of_key(rows: Seq<CalendarEventView>, external_id: Seq<char>, account_id: i64) -> Option<
    int,
> {
    position_among(rows, external_id, account_id, rows.len() as int)
}

/// Whether rows are well formed: each is identified by its position, and
/// no two share a key.
pub open spec fn rows_wf(rows: Seq<CalendarEventView>) -> bool {
    &&& rows.len() <= MAX_ROWS
    &&& forall|i: int| 0 <= i < rows.len() ==> (#[trigger] rows[i]).id == Some((i + 1) as i64)
    &&& forall|i: int, j: int|
        0 <= i < j < rows.len() ==> !(#[trigger] rows[i]).has_key(
            (#[trigger] rows[j]).external_id,
            rows[j].account_id,
        )
}

/// `position_among` finds a row with the key, and misses only where none of
/// the rows it looked at has the key.
pub proof fn lemma_position_among(
    rows: Seq<CalendarEventView>,
    external_id: Seq<char>,
    account_id: i64,
    n: int,
)
    requires
        0 <= n <= rows.len(),
    ensures
        match position_among(rows, external_id, account_id, n) {
            Some(i) => 0 <= i < n && rows[i].has_key(external_id, account_id),
            None => forall|i: int| 0 <= i < n ==> !(#[trigger] rows[i]).has_key(external_id, account_id),
        },
    decreases n,
{
    if n > 0 && !rows[n - 1].has_key(external_id, account_id) {
        lemma_position_among(rows, external_id, account_id, n - 1);
    }
}

/// In well-formed rows, the one row with a key is the row that is found.
pub proof fn lemma_position_unique(
    rows: Seq<CalendarEventView>,
    external_id: Seq<char>,
    account_id: i64,
    i: int,
)
    requires
        rows_wf(rows),
        0 <= i < rows.len(),
        rows[i].has_key(external_id, account_id),
    ensures
        position_of_key(rows, external_id, account_id) == Some(i),
{
    lemma_position_among(rows, external_id, account_id, rows.len() as int);
    let found = position_of_key(rows, external_id, account_id);
    assert(found is Some);
    let j = found->0;
    if j < i {
        assert(!rows[j].has_key(rows[i].external_id, rows[i].account_id));
    } else if i < j {
        assert(!rows[i].has_key(rows[j].external_id, rows[j].account_id));
    }
}

/// The last second of the UTC day of `now`.
pub open spec fn end_of_day(now: i64) -> int {
    now - (now % 86400) + 86399
}

/// Whether an event is still to come on the UTC day of `now`: it is not
/// dismissed and starts between `now` and the end of the day.
pub open spec fn is_upcoming(row: CalendarEventView, now: i64) -> bool {
    &&& !row.is_dismissed
    &&& now <= row.start_time <= end_of_day(now)
}

/// Whether an event is due for its first alert at `now`: it has not
/// alerted, it is not dismissed, and it starts within three minutes if it
/// has a video link, within one minute if it has none.
pub open spec fn needs_alert(row: CalendarEventView, now: i64) -> bool {
    &&& !row.has_alerted
    &&& !row.is_dismissed
    &&& if row.video_link is Some {
        row.start_time <= now + 180
    } else {
        row.start_time <= now + 60
    }
}

/// Those of the first `n` rows that `wanted` holds of, in order.
pub open spec fn rows_where(
    rows: Seq<CalendarEventView>,
    wanted: spec_fn(CalendarEventView) -> bool,
    n: int,
) -> Seq<CalendarEventView>
    decreases n,
{
    if n <= 0 || n > rows.len() {
        Seq::empty()
    } else if wanted(rows[n - 1]) {
        rows_where(rows, wanted, n - 1).push(rows[n - 1])
    } else {
        rows_where(rows, wanted, n - 1)
    }
}

/// Whether events are in the order of their starts, earliest first.
pub open spec fn sorted_by_start(events: Seq<CalendarEventView>) -> bool {
    forall|i: int, j: int|
        0 <= i <= j < events.len() ==> (#[trigger] events[i]).start_time <= (
        #[trigger] events[j]).start_time
}

/// Whether `events` are the rows among `rows` that `wanted` holds of, each
/// as often as it is there, in the order of their starts.
pub open spec fn is_selection_by_start(
    events: Seq<CalendarEventView>,
    rows: Seq<CalendarEventView>,
    wanted: spec_fn(CalendarEventView) -> bool,
) -> bool {
    &&& sorted_by_start(events)
    &&& events.to_multiset() == rows_where(rows, wanted, rows.len() as int).to_multiset()
}

/// Puts `event` among `events`, which are in the order of their starts,
/// behind every event that starts no later.
pub fn insert_by_start(events: &mut Vec<CalendarEvent>, event: CalendarEvent)
    requires
        sorted_by_start(event_views(old(events)@)),
    ensures
        sorted_by_start(event_views(final(events)@)),
        event_views(final(events)@).to_multiset() == event_views(old(events)@).to_multiset().insert(
            event@,
        ),
{
    let ghost before = event_views(events@);
    let mut at: usize = events.len();
    while at > 0 && events[at - 1].start_time > event.start_time
        invariant
            at <= events.len(),
            before == event_views(events@),
            forall|k: int| at <= k < events.len() ==> before[k].start_time > event.start_time,
        decreases at,
    {
        at -= 1;
    }
    events.insert(at, event);
    proof {
        let after = event_views(events@);
        assert(after =~= before.insert(at as int, event@));
        assert(after.remove(at as int) =~= before);
        vstd::seq_lib::to_multiset_remove(after, at as int);
        assert(after[at as int] == event@);
        before.to_multiset_ensures();
        after.to_multiset_ensures();
        assert(after.contains(event@)) by {
            assert(after[at as int] == event@);
        }
        assert(after.to_multiset() =~= before.to_multiset().insert(event@));
        assert forall|i: int, j: int| 0 <= i <= j < after.len() implies (#[trigger] after[i]).start_time
            <= (#[trigger] after[j]).start_time by {
            let bi = if i < at {
                i
            } else {
                i - 1
            };
            let bj = if j < at {
                j
            } else {
                j - 1
            };
            if i != at {
                assert(after[i] == before[bi]);
            }
            if j != at {
                assert(after[j] == before[bj]);
            }
            if i != at && j != at {
                assert(before[bi].start_time <= before[bj].start_time);
            }
        }
    }
}

/// Why an alert could not be snoozed.
#[derive(Debug, Clone, Copy, PartialEq, Eq, Structural)]
pub enum SnoozeError {
    /// No row has the identity.
    NotFound,
    /// The event was snoozed three times already.
    LimitReached,
}

/// The table of events.
pub struct EventStore {
    events: Vec<CalendarEvent>,
}

impl EventStore {
    /// The rows, in the order of insertion.
    pub closed spec fn rows(&self) -> Seq<CalendarEventView> {
        event_views(self.events@)
    }

    /// Whether the table is well formed.
    pub open spec fn wf(&self) -> bool {
        rows_wf(self.rows())
    }

    /// An empty table.
    pub fn new() -> (store: Self)
        ensures
            store.wf(),
            store.rows().len() == 0,
    {
        Self { events: Vec::new() }
    }

    /// A copy of the table.
    pub fn duplicate(&self) -> (copy: Self)
        ensures
            copy.rows() == self.rows(),
    {
        let mut events: Vec<CalendarEvent> = Vec::new();
        let mut i: usize = 0;
        while i < self.events.len()
            invariant
                i <= self.events.len(),
                events@.len() == i,
                forall|k: int| 0 <= k < i ==> (#[trigger] events@[k])@ == self.events@[k]@,
            decreases self.events.len() - i,
        {
            events.push(self.events[i].duplicate());
            i += 1;
        }
        assert(event_views(events@) =~= event_views(self.events@));
        Self { events }
    }

    /// The number of rows.
    pub fn len(&self) -> (n: usize)
        ensures
            n == self.rows().len(),
    {
        self.events.len()
    }

    /// The row at position `index`.
    pub fn get(&self, index: usize) -> (event: &CalendarEvent)
        requires
            index < self.rows().len(),
        ensures
            event@ == self.rows()[index as int],
    {
        &self.events[index]
    }

    /// The position of the row with identity `id`, if there is one.
    pub open spec fn position_of_id(rows: Seq<CalendarEventView>, id: i64) -> Option<int> {
        if 1 <= id <= rows.len() {
            Some(id - 1)
        } else {
            None
        }
    }

    /// The position of the row with identity `id`, if there is one.
    pub fn find_by_id(&self, id: i64) -> (found: Option<usize>)
        requires
            self.wf(),
        ensures
            match found {
                Some(i) => Self::position_of_id(self.rows(), id) == Some(i as int),
                None => Self::position_of_id(self.rows(), id) is None,
            },
    {
        if id >= 1 && id as u64 <= self.events.len() as u64 {
            Some((id - 1) as usize)
        } else {
            None
        }
    }

    /// The position of the row of `account_id` under `external_id`, if
    /// there is one.
    pub fn find(&self, external_id: &str, account_id: i64) -> (found: Option<usize>)
        ensures
            match found {
                Some(i) => position_of_key(self.rows(), external_id@, account_id) == Some(i as int),
                None => position_of_key(self.rows(), external_id@, account_id) is None,
            },
    {
        let mut n: usize = self.events.len();
        while n > 0
            invariant
                n <= self.events.len(),
                position_of_key(self.rows(), external_id@, account_id) == position_among(
                    self.rows(),
                    external_id@,
                    account_id,
                    n as int,
                ),
            decreases n,
        {
            let row = &self.events[n - 1];
            if row.account_id == account_id && str_eq(row.external_id.as_str(), external_id) {
                return Some(n - 1);
            }
            n -= 1;
        }
        None
    }

    /// Inserts `candidate` as a new row of `account_id`, with the default
    /// alert state, and returns its position.
    pub fn insert(&mut self, candidate: &CalendarEvent, account_id: i64, now: i64) -> (index: usize)
        requires
            old(self).wf(),
            old(self).rows().len() < MAX_ROWS,
            position_of_key(old(self).rows(), candidate.external_id@, account_id) is None,
        ensures
            final(self).wf(),
            index == old(self).rows().len(),
            final(self).rows() == old(self).rows().push(
                inserted_row(candidate@, account_id, (index + 1) as i64, now),
            ),
    {
        let index = self.events.len();
        let row = CalendarEvent {
            id: Some((index + 1) as i64),
            external_id: candidate.external_id.clone(),
            account_id,
            title: candidate.title.clone(),
            description: clone_opt_text(&candidate.description),
            start_time: candidate.start_time,
            end_time: candidate.end_time,
            video_link: clone_opt_text(&candidate.video_link),
            video_platform: clone_opt_text(&candidate.video_platform),
            snooze_count: 0,
            has_alerted: false,
            last_alert_threshold: None,
            is_dismissed: false,
            created_at: now,
            updated_at: now,
        };
        proof {
            lemma_position_among(
                self.rows(),
                candidate.external_id@,
                account_id,
                self.rows().len() as int,
            );
        }
        let ghost before = self.rows();
        self.events.push(row);
        proof {
            assert(self.rows() =~= before.push(
                inserted_row(candidate@, account_id, (index + 1) as i64, now),
            ));
        }
        index
    }

    /// Gives the row at `index` the content of `candidate`, touched at
    /// `now`. The candidate's own identity and alert state are not read.
    pub fn update_content(&mut self, index: usize, candidate: &CalendarEvent, now: i64)
        requires
            old(self).wf(),
            index < old(self).rows().len(),
        ensures
            final(self).wf(),
            final(self).rows() == old(self).rows().update(
                index as int,
                old(self).rows()[index as int].with_content_of(candidate@, now),
            ),
    {
        let ghost before = self.rows();
        let row = &mut self.events[index];
        row.title = candidate.title.clone();
        row.description = clone_opt_text(&candidate.description);
        row.start_time = candidate.start_time;
        row.end_time = candidate.end_time;
        row.video_link = clone_opt_text(&candidate.video_link);
        row.video_platform = clone_opt_text(&candidate.video_platform);
        row.updated_at = now;
        proof {
            assert(self.rows() =~= before.update(
                index as int,
                before[index as int].with_content_of(candidate@, now),
            ));
        }
    }

    /// Records that threshold `threshold` has fired for the row at `index`.
    /// A recorded threshold is only ever replaced by a smaller one.
    pub fn record_threshold(&mut self, index: usize, threshold: i32)
        requires
            old(self).wf(),
            index < old(self).rows().len(),
            old(self).rows()[index as int].last_alert_threshold matches Some(recorded)
                ==> threshold < recorded,
        ensures
            final(self).wf(),
            final(self).rows() == old(self).rows().update(
                index as int,
                CalendarEventView {
                    last_alert_threshold: Some(threshold),
                    ..old(self).rows()[index as int]
                },
            ),
    {
        let ghost before = self.rows();
        self.events[index].last_alert_threshold = Some(threshold);
        proof {
            assert(self.rows() =~= before.update(
                index as int,
                CalendarEventView { last_alert_threshold: Some(threshold), ..before[index as int] },
            ));
        }
    }

    /// Marks the event with identity `id` as alerted. An unknown identity
    /// changes nothing.
    pub fn mark_alerted(&mut self, id: i64)
        requires
            old(self).wf(),
        ensures
            final(self).wf(),
            match Self::position_of_id(old(self).rows(), id) {
                Some(i) => final(self).rows() == old(self).rows().update(
                    i,
                    CalendarEventView { has_alerted: true, ..old(self).rows()[i] },
                ),
                None => final(self).rows() == old(self).rows(),
            },
    {
        match self.find_by_id(id) {
            Some(index) => {
                let ghost before = self.rows();
                self.events[index].has_alerted = true;
                proof {
                    assert(self.rows() =~= before.update(
                        index as int,
                        CalendarEventView { has_alerted: true, ..before[index as int] },
                    ));
                }
            },
            None => {},
        }
    }

    /// Snoozes the alert of the event with identity `id`: the snooze is
    /// counted and the event may alert again. An event that was snoozed
    /// three times cannot be snoozed; an unknown identity is an error.
    pub fn snooze(&mut self, id: i64) -> (r: Result<(), SnoozeError>)
        requires
            old(self).wf(),
        ensures
            final(self).wf(),
            match Self::position_of_id(old(self).rows(), id) {
                None => r == Err::<(), SnoozeError>(SnoozeError::NotFound) && final(self).rows()
                    == old(self).rows(),
                Some(i) => if old(self).rows()[i].snooze_count >= MAX_SNOOZES {
                    r == Err::<(), SnoozeError>(SnoozeError::LimitReached) && final(self).rows()
                        == old(self).rows()
                } else {
                    r is Ok && final(self).rows() == old(self).rows().update(
                        i,
                        CalendarEventView {
                            snooze_count: (old(self).rows()[i].snooze_count + 1) as i32,
                            has_alerted: false,
                            ..old(self).rows()[i]
                        },
                    )
                },
            },
    {
        match self.find_by_id(id) {
            None => Err(SnoozeError::NotFound),
            Some(index) => {
                if self.events[index].snooze_count >= MAX_SNOOZES {
                    Err(SnoozeError::LimitReached)
                } else {
                    let ghost before = self.rows();
                    let row = &mut self.events[index];
                    row.snooze_count = row.snooze_count + 1;
                    row.has_alerted = false;
                    proof {
                        assert(self.rows() =~= before.update(
                            index as int,
                            CalendarEventView {
                                snooze_count: (before[index as int].snooze_count + 1) as i32,
                                has_alerted: false,
                                ..before[index as int]
                            },
                        ));
                    }
                    Ok(())
                }
            },
        }
    }

    /// Dismisses the event with identity `id`, for good. An unknown
    /// identity changes nothing.
    pub fn dismiss(&mut self, id: i64)
        requires
            old(self).wf(),
        ensures
            final(self).wf(),
            match Self::position_of_id(old(self).rows(), id) {
                Some(i) => final(self).rows() == old(self).rows().update(
                    i,
                    CalendarEventView { is_dismissed: true, ..old(self).rows()[i] },
                ),
                None => final(self).rows() == old(self).rows(),
            },
    {
        match self.find_by_id(id) {
            Some(index) => {
                let ghost before = self.rows();
                self.events[index].is_dismissed = true;
                proof {
                    assert(self.rows() =~= before.update(
                        index as int,
                        CalendarEventView { is_dismissed: true, ..before[index as int] },
                    ));
                }
            },
            None => {},
        }
    }

    /// The events that are still to come on the UTC day of `now`, in the
    /// order of their starts.
    pub fn get_upcoming(&self, now: i64) -> (events: Vec<CalendarEvent>)
        ensures
            is_selection_by_start(
                event_views(events@),
                self.rows(),
                |row: CalendarEventView| is_upcoming(row, now),
            ),
    {
        let ghost wanted = |row: CalendarEventView| is_upcoming(row, now);
        let day_second: i128 = now as i128 % 86400;
        let into_day: i128 = if day_second < 0 {
            day_second + 86400
        } else {
            day_second
        };
        let last_second: i128 = now as i128 - into_day + 86399;
        assert(last_second == end_of_day(now));
        let mut events: Vec<CalendarEvent> = Vec::new();
        assert(event_views(events@) =~= rows_where(self.rows(), wanted, 0));
        let mut i: usize = 0;
        while i < self.events.len()
            invariant
                i <= self.events.len(),
                last_second == end_of_day(now),
                wanted == (|row: CalendarEventView| is_upcoming(row, now)),
                sorted_by_start(event_views(events@)),
                event_views(events@).to_multiset() == rows_where(
                    self.rows(),
                    wanted,
                    i as int,
                ).to_multiset(),
            decreases self.events.len() - i,
        {
            let row = &self.events[i];
            assert(self.rows()[i as int] == row@);
            if !row.is_dismissed && now <= row.start_time && row.start_time as i128 <= last_second {
                proof {
                    rows_where(self.rows(), wanted, i as int).to_multiset_ensures();
                }
                insert_by_start(&mut events, row.duplicate());
            }
            i += 1;
        }
        events
    }

    /// The events that are due for their first alert at `now`, in the order
    /// of their starts.
    pub fn get_needing_alert(&self, now: i64) -> (events: Vec<CalendarEvent>)
        ensures
            is_selection_by_start(
                event_views(events@),
                self.rows(),
                |row: CalendarEventView| needs_alert(row, now),
            ),
    {
        let ghost wanted = |row: CalendarEventView| needs_alert(row, now);
        let mut events: Vec<CalendarEvent> = Vec::new();
        assert(event_views(events@) =~= rows_where(self.rows(), wanted, 0));
        let mut i: usize = 0;
        while i < self.events.len()
            invariant
                i <= self.events.len(),
                wanted == (|row: CalendarEventView| needs_alert(row, now)),
                sorted_by_start(event_views(events@)),
                event_views(events@).to_multiset() == rows_where(
                    self.rows(),
                    wanted,
                    i as int,
                ).to_multiset(),
            decreases self.events.len() - i,
        {
            let row = &self.events[i];
            assert(self.rows()[i as int] == row@);
            let soon = if row.video_link.is_some() {
                row.start_time as i128 <= now as i128 + 180
            } else {
                row.start_time as i128 <= now as i128 + 60
            };
            if !row.has_alerted && !row.is_dismissed && soon {
                proof {
                    rows_where(self.rows(), wanted, i as int).to_multiset_ensures();
                }
                insert_by_start(&mut events, row.duplicate());
            }
            i += 1;
        }
        events
    }
}

} // verus!
