//! The alert scheduler.
//!
//! On every tick each event that is not dismissed and starts within the
//! window from five minutes ago to sixty minutes ahead is held against the
//! thresholds 30, 10, 5, 1 and 0 minutes, highest first. A threshold fires
//! if it is switched on, if the minutes until the start lie within its grace
//! window (more than the threshold minus five, at most the threshold), and
//! if no threshold that small or smaller has fired for the event. The first
//! that fires is recorded on the event; at most one fires per event and
//! tick.
use vstd::prelude::*;
use crate::calendar::common::HttpAttempt;
use crate::calendar::reconcile::keeps_rows;
use crate::calendar::{
    account_synced, lemma_rows_keep_themselves, sync_account, SyncError, SyncState,
};
use crate::models::sync::SyncResult;
use crate::clock::{minutes_until, utc_now, whole_minutes_until};
use crate::database::events::{
    insert_by_start, is_selection_by_start, rows_where, rows_wf, sorted_by_start, EventStore,
};
use crate::models::account::Account;
use crate::utils::circuit_breaker::CircuitBreakerRegistry;
use crate::models::alert::{start_alert, AlertType};
use crate::models::event::{event_views, CalendarEvent, CalendarEventView};
use crate::models::settings::Settings;
use crate::text::{push_signed_decimal, signed_decimal};

verus! {

/// What the scheduler tells its listeners.
#[derive(Debug, Clone)]
pub enum MonitorEvent {
    /// An alert fired for the event.
    AlertTriggered(CalendarEvent),
    /// A full sync ended, with its counts.
    SyncCompleted { added: usize, updated: usize },
    /// A cycle failed, with the message.
    Error(String),
}

/// The thresholds, in minutes before the start, in the order in which they
/// are tried.
pub const THRESHOLDS: [i32; 5] = [30, 10, 5, 1, 0];

/// The minutes during which a threshold that was reached can still fire.
pub const GRACE_MINUTES: i64 = 5;

/// Seconds that the window of a tick reaches back.
pub const WINDOW_BACK_SECONDS: i64 = 300;

/// Seconds that the window of a tick reaches ahead.
pub const WINDOW_AHEAD_SECONDS: i64 = 3600;

/// Seconds between two full syncs.
pub const SYNC_PERIOD_SECONDS: i64 = 300;

/// Seconds between two ticks.
pub const TICK_PERIOD_SECONDS: u64 = 30;

/// Whether the threshold of `threshold` minutes is switched on.
pub open spec fn threshold_enabled(settings: Settings, threshold: i32) -> bool {
    if threshold == 30 {
        settings.alert_30m
    } else if threshold == 10 {
        settings.alert_10m
    } else if threshold == 5 {
        settings.alert_5m
    } else if threshold == 1 {
        settings.alert_1m
    } else if threshold == 0 {
        settings.alert_default
    } else {
        false
    }
}

/// The kind of alert of a threshold: a warning for 30, 10, 5 and 1, and the
/// start-of-meeting alert for 0.
pub open spec fn threshold_alert(threshold: i32, has_video: bool) -> AlertType {
    if threshold == 30 {
        AlertType::Warning30m
    } else if threshold == 10 {
        AlertType::Warning10m
    } else if threshold == 5 {
        AlertType::Warning5m
    } else if threshold == 1 {
        AlertType::Warning1m
    } else {
        start_alert(has_video)
    }
}

/// Whether a threshold fires: it is switched on, the minutes until the
/// start lie in its grace window, and no threshold that small or smaller
/// has fired.
pub open spec fn threshold_fires(threshold: i32, enabled: bool, minutes: int, last: Option<i32>) -> bool {
    &&& enabled
    &&& threshold - GRACE_MINUTES < minutes <= threshold
    &&& match last {
        Some(fired) => fired > threshold,
        None => true,
    }
}

/// The first threshold from position `from` on that fires.
pub open spec fn due_threshold_from(settings: Settings, minutes: int, last: Option<i32>, from: int) -> Option<
    i32,
>
    decreases THRESHOLDS@.len() - from,
{
    if from < 0 || from >= THRESHOLDS@.len() {
        None
    } else if threshold_fires(
        THRESHOLDS@[from],
        threshold_enabled(settings, THRESHOLDS@[from]),
        minutes,
        last,
    ) {
        Some(THRESHOLDS@[from])
    } else {
        due_threshold_from(settings, minutes, last, from + 1)
    }
}

/// The threshold that fires for an event at `now`: the highest one that
/// fires, if any.
pub open spec fn due_threshold(event: CalendarEventView, settings: Settings, now: i64) -> Option<i32> {
    due_threshold_from(
        settings,
        minutes_until(event.start_time as int, now as int),
        event.last_alert_threshold,
        0,
    )
}

/// The threshold that fires for an event at `now`, with its kind of alert.
pub open spec fn due_alert(event: CalendarEventView, settings: Settings, now: i64) -> Option<
    (i32, AlertType),
> {
    match due_threshold(event, settings, now) {
        Some(threshold) => Some((threshold, threshold_alert(threshold, event.video_link is Some))),
        None => None,
    }
}

/// Whether the threshold of `threshold` minutes is switched on.
pub fn is_threshold_enabled(settings: &Settings, threshold: i32) -> (b: bool)
    ensures
        b == threshold_enabled(*settings, threshold),
{
    if threshold == 30 {
        settings.alert_30m
    } else if threshold == 10 {
        settings.alert_10m
    } else if threshold == 5 {
        settings.alert_5m
    } else if threshold == 1 {
        settings.alert_1m
    } else if threshold == 0 {
        settings.alert_default
    } else {
        false
    }
}

/// The kind of alert of a threshold.
pub fn alert_for_threshold(threshold: i32, has_video: bool) -> (kind: AlertType)
    ensures
        kind == threshold_alert(threshold, has_video),
{
    if threshold == 30 {
        AlertType::Warning30m
    } else if threshold == 10 {
        AlertType::Warning10m
    } else if threshold == 5 {
        AlertType::Warning5m
    } else if threshold == 1 {
        AlertType::Warning1m
    } else if has_video {
        AlertType::VideoMeeting
    } else {
        AlertType::Meeting
    }
}

/// Decides which threshold fires for `event` at `now`: the highest one that
/// is switched on, whose grace window holds the minutes until the start,
/// and that is below every threshold that has fired.
pub fn check_alert_thresholds_at(event: &CalendarEvent, settings: &Settings, now: i64) -> (r: Option<
    (i32, AlertType),
>)
    ensures
        r == due_alert(event@, *settings, now),
{
    let minutes = whole_minutes_until(event.start_time, now);
    let mut i: usize = 0;
    while i < 5
        invariant
            i <= 5,
            THRESHOLDS@.len() == 5,
            minutes == minutes_until(event.start_time as int, now as int),
            due_threshold(event@, *settings, now) == due_threshold_from(
                *settings,
                minutes as int,
                event.last_alert_threshold,
                i as int,
            ),
        decreases 5 - i,
    {
        let threshold: i32 = THRESHOLDS[i];
        assert(0 <= threshold <= 30) by {
            assert(THRESHOLDS@[0] == 30 && THRESHOLDS@[1] == 10 && THRESHOLDS@[2] == 5
                && THRESHOLDS@[3] == 1 && THRESHOLDS@[4] == 0);
        }
        if is_threshold_enabled(settings, threshold) {
            let in_window = minutes <= threshold as i64 && minutes > threshold as i64
                - GRACE_MINUTES;
            let not_yet = match event.last_alert_threshold {
                Some(fired) => fired > threshold,
                None => true,
            };
            if in_window && not_yet {
                return Some((threshold, alert_for_threshold(threshold, event.is_video_meeting())));
            }
        }
        i += 1;
    }
    None
}

/// Decides which threshold fires for `event` at the current time.
pub fn check_alert_thresholds(event: &CalendarEvent, settings: &Settings) -> (r: Option<
    (i32, AlertType),
>)
    ensures
        exists|now: i64| r == due_alert(event@, *settings, now),
{
    let now = utc_now();
    check_alert_thresholds_at(event, settings, now)
}

/// Whether an event that starts at `start` starts within three minutes of
/// `now` and not before it, counted in whole minutes.
pub open spec fn starts_soon(start: i64, now: i64) -> bool {
    0 <= minutes_until(start as int, now as int) <= 3
}

/// Whether `event` starts within three minutes of `now` and not before it,
/// counted in whole minutes.
pub fn should_trigger_alert_at(event: &CalendarEvent, now: i64) -> (b: bool)
    ensures
        b == starts_soon(event.start_time, now),
{
    let minutes = whole_minutes_until(event.start_time, now);
    0 <= minutes && minutes <= 3
}

/// Whether `event` starts within three minutes of the current time.
pub fn should_trigger_alert(event: &CalendarEvent) -> (b: bool)
    ensures
        exists|now: i64| b == starts_soon(event.start_time, now),
{
    let now = utc_now();
    should_trigger_alert_at(event, now)
}

/// Whether an event that starts at `start` lies in the window of a tick at
/// `now`: from five minutes ago to sixty minutes ahead.
pub open spec fn in_alert_window(start: i64, now: i64) -> bool {
    now - WINDOW_BACK_SECONDS <= start <= now + WINDOW_AHEAD_SECONDS
}

/// Whether an event that starts at `start` lies in the window of a tick at
/// `now`.
pub fn is_in_alert_window(start: i64, now: i64) -> (b: bool)
    ensures
        b == in_alert_window(start, now),
{
    let s = start as i128;
    let n = now as i128;
    n - 300 <= s && s <= n + 3600
}

/// Whether a full sync is due at `now`: five minutes or more have passed
/// since the last one.
pub open spec fn sync_is_due(now: i64, last_sync: i64) -> bool {
    now - last_sync >= SYNC_PERIOD_SECONDS
}

/// Whether a full sync is due at `now`.
pub fn is_sync_due(now: i64, last_sync: i64) -> (b: bool)
    ensures
        b == sync_is_due(now, last_sync),
{
    now as i128 - last_sync as i128 >= 300
}

/// Whether a tick at `now` looks at the event at all.
pub open spec fn is_watched(event: CalendarEventView, now: i64) -> bool {
    !event.is_dismissed && in_alert_window(event.start_time, now)
}

/// The threshold that a tick at `now` records on the event, if any.
pub open spec fn tick_threshold(event: CalendarEventView, settings: Settings, now: i64) -> Option<i32> {
    if is_watched(event, now) {
        due_threshold(event, settings, now)
    } else {
        None
    }
}

/// The event after a tick at `now`: the threshold that fired is recorded;
/// nothing else changes.
pub open spec fn ticked(event: CalendarEventView, settings: Settings, now: i64) -> CalendarEventView {
    match tick_threshold(event, settings, now) {
        Some(threshold) => CalendarEventView { last_alert_threshold: Some(threshold), ..event },
        None => event,
    }
}

/// The rows after a tick at `now`.
pub open spec fn ticked_rows(rows: Seq<CalendarEventView>, settings: Settings, now: i64) -> Seq<
    CalendarEventView,
> {
    rows.map_values(|row: CalendarEventView| ticked(row, settings, now))
}

/// An alert that fired in a tick.
#[derive(Debug, Clone)]
pub struct FiredAlert {
    /// The event as the tick found it.
    pub event: CalendarEvent,
    /// The threshold that fired, in minutes before the start.
    pub threshold: i32,
    /// The kind of alert to play.
    pub alert_type: AlertType,
}

/// An alert that fired in a tick, as a plain value.
pub struct FiredAlertView {
    pub event: CalendarEventView,
    pub threshold: i32,
    pub alert_type: AlertType,
}

impl View for FiredAlert {
    type V = FiredAlertView;

    open spec fn view(&self) -> FiredAlertView {
        FiredAlertView { event: self.event@, threshold: self.threshold, alert_type: self.alert_type }
    }
}

/// The views of a list of fired alerts.
pub open spec fn fired_views(alerts: Seq<FiredAlert>) -> Seq<FiredAlertView> {
    alerts.map_values(|alert: FiredAlert| alert@)
}

/// The alerts that a tick at `now` fires among the first `n` rows, in the
/// order of the rows.
pub open spec fn fired_among(rows: Seq<CalendarEventView>, settings: Settings, now: i64, n: int) -> Seq<
    FiredAlertView,
>
    decreases n,
{
    if n <= 0 || n > rows.len() {
        Seq::empty()
    } else {
        match tick_threshold(rows[n - 1], settings, now) {
            Some(threshold) => fired_among(rows, settings, now, n - 1).push(
                FiredAlertView {
                    event: rows[n - 1],
                    threshold,
                    alert_type: threshold_alert(threshold, rows[n - 1].video_link is Some),
                },
            ),
            None => fired_among(rows, settings, now, n - 1),
        }
    }
}

/// A threshold that fires is one of the five, and it lies below every
/// threshold that fired before.
pub proof fn lemma_due_threshold_descends(settings: Settings, minutes: int, last: Option<i32>, from: int)
    requires
        0 <= from,
    ensures
        match due_threshold_from(settings, minutes, last, from) {
            Some(threshold) => {
                &&& 0 <= threshold <= 30
                &&& threshold_enabled(settings, threshold)
                &&& threshold - GRACE_MINUTES < minutes <= threshold
                &&& last matches Some(fired) ==> threshold < fired
            },
            None => true,
        },
    decreases THRESHOLDS@.len() - from,
{
    assert(THRESHOLDS@[0] == 30 && THRESHOLDS@[1] == 10 && THRESHOLDS@[2] == 5 && THRESHOLDS@[3]
        == 1 && THRESHOLDS@[4] == 0);
    if from < THRESHOLDS@.len() {
        if !threshold_fires(
            THRESHOLDS@[from],
            threshold_enabled(settings, THRESHOLDS@[from]),
            minutes,
            last,
        ) {
            lemma_due_threshold_descends(settings, minutes, last, from + 1);
        }
    }
}

/// A tick changes nothing of an event but its last threshold, and a
/// recorded threshold is only ever replaced by a smaller one.
pub proof fn lemma_tick_descends(event: CalendarEventView, settings: Settings, now: i64)
    ensures
        ticked(event, settings, now) == (CalendarEventView {
            last_alert_threshold: ticked(event, settings, now).last_alert_threshold,
            ..event
        }),
        event.last_alert_threshold matches Some(before) ==> {
            &&& ticked(event, settings, now).last_alert_threshold matches Some(after)
            &&& after <= before
            &&& tick_threshold(event, settings, now) is Some ==> after < before
        },
{
    lemma_due_threshold_descends(
        settings,
        minutes_until(event.start_time as int, now as int),
        event.last_alert_threshold,
        0,
    );
}

/// The event after the first `n` of a sequence of ticks, each with the
/// settings and the time of its own.
pub open spec fn after_ticks(
    event: CalendarEventView,
    settings: Seq<Settings>,
    times: Seq<i64>,
    n: int,
) -> CalendarEventView
    decreases n,
{
    if n <= 0 || n > times.len() || n > settings.len() {
        event
    } else {
        ticked(after_ticks(event, settings, times, n - 1), settings[n - 1], times[n - 1])
    }
}

/// Monotonic threshold descent: over any sequence of ticks, whatever their
/// times and settings, once a threshold is recorded for an event, every
/// later tick leaves a threshold recorded that is no larger.
pub proof fn lemma_thresholds_descend(
    event: CalendarEventView,
    settings: Seq<Settings>,
    times: Seq<i64>,
    earlier: int,
    later: int,
)
    requires
        settings.len() == times.len(),
        0 <= earlier <= later <= times.len(),
    ensures
        after_ticks(event, settings, times, earlier).last_alert_threshold matches Some(recorded)
            ==> {
            &&& after_ticks(event, settings, times, later).last_alert_threshold matches Some(found)
            &&& found <= recorded
        },
    decreases later - earlier,
{
    if earlier < later {
        lemma_thresholds_descend(event, settings, times, earlier, later - 1);
        lemma_tick_descends(
            after_ticks(event, settings, times, later - 1),
            settings[later - 1],
            times[later - 1],
        );
    }
}

/// Whether `events` are those of `rows` that start within the window of a
/// tick at `now`, in the order of their starts.
pub open spec fn is_window_selection(
    events: Seq<CalendarEventView>,
    rows: Seq<CalendarEventView>,
    now: i64,
) -> bool {
    is_selection_by_start(events, rows, |row: CalendarEventView| in_alert_window(row.start_time, now))
}

/// The events that start within the window of a tick at `now`, dismissed
/// or not, in the order of their starts.
pub fn get_upcoming_events_at(store: &EventStore, now: i64) -> (events: Vec<CalendarEvent>)
    ensures
        is_window_selection(event_views(events@), store.rows(), now),
{
    let ghost wanted = |row: CalendarEventView| in_alert_window(row.start_time, now);
    let mut events: Vec<CalendarEvent> = Vec::new();
    assert(event_views(events@) =~= rows_where(store.rows(), wanted, 0));
    let mut i: usize = 0;
    while i < store.len()
        invariant
            i <= store.rows().len(),
            wanted == (|row: CalendarEventView| in_alert_window(row.start_time, now)),
            sorted_by_start(event_views(events@)),
            event_views(events@).to_multiset() == rows_where(
                store.rows(),
                wanted,
                i as int,
            ).to_multiset(),
        decreases store.rows().len() - i,
    {
        let row = store.get(i);
        if is_in_alert_window(row.start_time, now) {
            proof {
                rows_where(store.rows(), wanted, i as int).to_multiset_ensures();
            }
            insert_by_start(&mut events, row.duplicate());
        }
        i += 1;
    }
    events
}

/// The events that start within the window of a tick at the current time,
/// in the order of their starts.
pub fn get_upcoming_events(store: &EventStore) -> (events: Vec<CalendarEvent>)
    ensures
        exists|now: i64| is_window_selection(event_views(events@), store.rows(), now),
{
    let now = utc_now();
    get_upcoming_events_at(store, now)
}

/// Runs the alert part of one tick at `now`: records on each watched event
/// the threshold that fires for it, and returns the alerts that fired, in
/// the order of the table.
pub fn run_alert_tick(store: &mut EventStore, settings: &Settings, now: i64) -> (alerts: Vec<FiredAlert>)
    requires
        old(store).wf(),
    ensures
        final(store).wf(),
        final(store).rows() == ticked_rows(old(store).rows(), *settings, now),
        fired_views(alerts@) == fired_among(
            old(store).rows(),
            *settings,
            now,
            old(store).rows().len() as int,
        ),
{
    let mut alerts: Vec<FiredAlert> = Vec::new();
    let ghost before = store.rows();
    let count = store.len();
    let mut i: usize = 0;
    while i < count
        invariant
            i <= count,
            count == before.len(),
            store.wf(),
            store.rows().len() == before.len(),
            forall|k: int| 0 <= k < i ==> store.rows()[k] == ticked(before[k], *settings, now),
            forall|k: int| i <= k < before.len() ==> store.rows()[k] == before[k],
            fired_views(alerts@) == fired_among(before, *settings, now, i as int),
        decreases count - i,
    {
        let row = store.get(i);
        let due = if !row.is_dismissed && is_in_alert_window(row.start_time, now) {
            check_alert_thresholds_at(row, settings, now)
        } else {
            None
        };
        match due {
            Some((threshold, alert_type)) => {
                let alert = FiredAlert { event: row.duplicate(), threshold, alert_type };
                let ghost fired_before = alerts@;
                alerts.push(alert);
                assert(fired_views(alerts@) =~= fired_views(fired_before).push(alert@));
                proof {
                    lemma_tick_descends(before[i as int], *settings, now);
                }
                store.record_threshold(i, threshold);
            },
            None => {},
        }
        i += 1;
    }
    assert(store.rows() =~= ticked_rows(before, *settings, now));
    alerts
}

/// The message for an event that is not in the table.
pub open spec fn not_found_message(event_id: i64) -> Seq<char> {
    "Event not found: "@ + signed_decimal(event_id as int)
}

/// Fires the start-of-meeting alert of the event with identity `event_id`,
/// whatever thresholds have fired for it. Returns the kind of alert to
/// play and the event; an unknown identity is an error. The thresholds'
/// record is neither read nor written.
pub fn trigger_manual_alert(event_id: i64, store: &EventStore) -> (r: Result<FiredAlert, String>)
    requires
        store.wf(),
    ensures
        match EventStore::position_of_id(store.rows(), event_id) {
            Some(i) => {
                &&& r matches Ok(alert)
                &&& alert.event@ == store.rows()[i]
                &&& alert.alert_type == start_alert(store.rows()[i].video_link is Some)
                &&& alert.threshold == 0
            },
            None => r matches Err(message) && message@ == not_found_message(event_id),
        },
{
    match store.find_by_id(event_id) {
        Some(index) => {
            let row = store.get(index);
            let alert_type = if row.is_video_meeting() {
                AlertType::VideoMeeting
            } else {
                AlertType::Meeting
            };
            Ok(FiredAlert { event: row.duplicate(), threshold: 0, alert_type })
        },
        None => {
            let mut message = String::from_str("Event not found: ");
            push_signed_decimal(&mut message, event_id);
            Err(message)
        },
    }
}

/// `a + b`, held at the top of the `usize` range.
pub open spec fn capped_sum(a: usize, b: usize) -> usize {
    if a + b > usize::MAX {
        usize::MAX
    } else {
        (a + b) as usize
    }
}

/// The counts of the first `n` accounts that were synchronised, added up.
pub open spec fn totals_among(outcomes: Seq<Option<(usize, usize)>>, n: int) -> (usize, usize)
    decreases n,
{
    if n <= 0 || n > outcomes.len() {
        (0, 0)
    } else {
        let before = totals_among(outcomes, n - 1);
        match outcomes[n - 1] {
            Some(counts) => (capped_sum(before.0, counts.0), capped_sum(before.1, counts.1)),
            None => before,
        }
    }
}

/// Whether one of the first `n` accounts was synchronised.
pub open spec fn any_synced_among(outcomes: Seq<Option<(usize, usize)>>, n: int) -> bool {
    exists|i: int| 0 <= i < n && i < outcomes.len() && (#[trigger] outcomes[i]) is Some
}

/// What a sync of all accounts reports, given for each account its counts,
/// or `None` where it failed: the added-up counts of the accounts that were
/// synchronised, or `None` where there are accounts and every one failed.
pub open spec fn sync_summary(outcomes: Seq<Option<(usize, usize)>>) -> Option<(usize, usize)> {
    if outcomes.len() > 0 && !any_synced_among(outcomes, outcomes.len() as int) {
        None
    } else {
        Some(totals_among(outcomes, outcomes.len() as int))
    }
}

/// The message of a sync in which every account failed.
pub open spec fn all_failed_message() -> Seq<char> {
    "Failed to sync any accounts"@
}

/// Sums up a sync of all accounts. It fails only if there are accounts and
/// every one failed.
pub fn summarize_sync(outcomes: &Vec<Option<(usize, usize)>>) -> (r: Result<(usize, usize), String>)
    ensures
        match sync_summary(outcomes@) {
            Some(totals) => r == Ok::<(usize, usize), String>(totals),
            None => r matches Err(message) && message@ == all_failed_message(),
        },
{
    let mut added: usize = 0;
    let mut updated: usize = 0;
    let mut any: bool = false;
    let mut i: usize = 0;
    while i < outcomes.len()
        invariant
            i <= outcomes.len(),
            (added, updated) == totals_among(outcomes@, i as int),
            any == any_synced_among(outcomes@, i as int),
        decreases outcomes.len() - i,
    {
        match outcomes[i] {
            Some((a, u)) => {
                added = added.saturating_add(a);
                updated = updated.saturating_add(u);
                any = true;
            },
            None => {},
        }
        i += 1;
    }
    if outcomes.len() > 0 && !any {
        Err(String::from_str("Failed to sync any accounts"))
    } else {
        Ok((added, updated))
    }
}

/// The counts that the sync of an account gave, or `None` where it failed.
pub open spec fn outcome_of(r: Result<SyncResult, SyncError>) -> Option<(usize, usize)> {
    match r {
        Ok(result) => Some((result.events_added, result.events_updated)),
        Err(_) => None,
    }
}

/// The outcomes of the syncs of the accounts, in order.
pub open spec fn outcomes_of(results: Seq<Result<SyncResult, SyncError>>) -> Seq<
    Option<(usize, usize)>,
> {
    results.map_values(|r: Result<SyncResult, SyncError>| outcome_of(r))
}

/// The account after its sync: a successful sync is recorded with its time.
pub open spec fn account_after(account: Account, r: Result<SyncResult, SyncError>, now: i64) -> Account {
    if r is Ok {
        Account { last_synced_at: Some(now), ..account }
    } else {
        account
    }
}

/// Whether `results` are what the syncs of `accounts` gave, one after the
/// other, each finding the table and the breakers as the one before left
/// them: `states` holds the table and the breakers before the first sync,
/// between the syncs, and after the last.
pub open spec fn synced_in_turn<G: Fn(&str) -> HttpAttempt, K: Fn() -> u64>(
    get: &G,
    clock: &K,
    accounts: Seq<Account>,
    states: Seq<SyncState>,
    results: Seq<Result<SyncResult, SyncError>>,
    now: i64,
    now_ms: u64,
) -> bool {
    &&& states.len() == accounts.len() + 1
    &&& results.len() == accounts.len()
    &&& forall|i: int|
        0 <= i < accounts.len() ==> account_synced(
            get,
            clock,
            accounts[i],
            states[i],
            now,
            now_ms,
            #[trigger] results[i],
            states[i + 1],
        )
}

/// Whether the syncs of all accounts gave `results` and led from `before`
/// to `after`, with each synchronised account recorded.
pub open spec fn all_synced<G: Fn(&str) -> HttpAttempt, K: Fn() -> u64>(
    get: &G,
    clock: &K,
    accounts_before: Seq<Account>,
    before: SyncState,
    now: i64,
    now_ms: u64,
    results: Seq<Result<SyncResult, SyncError>>,
    accounts_after: Seq<Account>,
    after: SyncState,
) -> bool {
    exists|states: Seq<SyncState>|
        {
            &&& #[trigger] synced_in_turn(get, clock, accounts_before, states, results, now, now_ms)
            &&& states[0] == before
            &&& states[accounts_before.len() as int] == after
            &&& accounts_after.len() == accounts_before.len()
            &&& forall|i: int|
                0 <= i < accounts_before.len() ==> #[trigger] accounts_after[i] == account_after(
                    accounts_before[i],
                    results[i],
                    now,
                )
        }
}

/// Whether `r` is the report of a sync of all accounts with these results:
/// the summary of their outcomes, or the failure where every account
/// failed.
pub open spec fn is_sync_report(r: Result<(usize, usize), String>, results: Seq<Result<SyncResult, SyncError>>) -> bool {
    match sync_summary(outcomes_of(results)) {
        Some(totals) => r == Ok::<(usize, usize), String>(totals),
        None => r matches Err(message) && message@ == all_failed_message(),
    }
}

/// The sync of all accounts fails exactly when there are accounts and the
/// sync of every one of them failed; with no account it reports no change.
pub proof fn lemma_sync_fails_when_all_fail(
    r: Result<(usize, usize), String>,
    results: Seq<Result<SyncResult, SyncError>>,
)
    requires
        is_sync_report(r, results),
    ensures
        r is Err <==> results.len() > 0 && forall|i: int|
            0 <= i < results.len() ==> (#[trigger] results[i]) is Err,
        results.len() == 0 ==> r == Ok::<(usize, usize), String>((0usize, 0usize)),
{
    let outcomes = outcomes_of(results);
    assert forall|i: int| 0 <= i < results.len() implies ((#[trigger] outcomes[i]) is Some
        <==> results[i] is Ok) by {}
    assert(outcomes.len() == results.len());
    if any_synced_among(outcomes, outcomes.len() as int) {
        let i = choose|i: int| 0 <= i < outcomes.len() && (#[trigger] outcomes[i]) is Some;
        assert(results[i] is Ok);
    } else if results.len() > 0 {
        assert forall|i: int| 0 <= i < results.len() implies (#[trigger] results[i]) is Err by {
            assert(!(outcomes[i] is Some));
        }
    }
    if exists|i: int| 0 <= i < results.len() && (#[trigger] results[i]) is Ok {
        let i = choose|i: int| 0 <= i < results.len() && (#[trigger] results[i]) is Ok;
        assert(outcomes[i] is Some);
    }
    if results.len() == 0 {
        assert(totals_among(outcomes, 0) == (0usize, 0usize));
    }
}

/// Synchronises every account, one after the other. An account that fails
/// does not stop the others; an account that was synchronised has the time
/// of the sync recorded.
///
/// Each account is synchronised as `account_synced` says, on the table and
/// the breakers as the account before it left them. The report is the
/// summary of the outcomes: it fails exactly when there are accounts and
/// every one failed. Whatever the network brings, the table stays well
/// formed and every row keeps its place and its alert state.
pub fn sync_calendars<G: Fn(&str) -> HttpAttempt, S: Fn(u64), K: Fn() -> u64>(
    accounts: &mut Vec<Account>,
    store: &mut EventStore,
    registry: &mut CircuitBreakerRegistry,
    now: i64,
    now_ms: u64,
    get: &G,
    sleep: &S,
    clock: &K,
) -> (r: Result<(usize, usize), String>)
    requires
        old(store).wf(),
        old(registry).wf(),
        forall|url: &str| get.requires((url,)),
        forall|ms: u64| sleep.requires((ms,)),
        clock.requires(()),
    ensures
        final(store).wf(),
        final(registry).wf(),
        keeps_rows(old(store).rows(), final(store).rows()),
        exists|results: Seq<Result<SyncResult, SyncError>>|
            {
                &&& #[trigger] all_synced(
                    get,
                    clock,
                    old(accounts)@,
                    SyncState { rows: old(store).rows(), registry: old(registry)@ },
                    now,
                    now_ms,
                    results,
                    final(accounts)@,
                    SyncState { rows: final(store).rows(), registry: final(registry)@ },
                )
                &&& is_sync_report(r, results)
            },
        old(accounts)@.len() == 0 ==> {
            &&& r == Ok::<(usize, usize), String>((0usize, 0usize))
            &&& final(store).rows() == old(store).rows()
            &&& final(registry)@ == old(registry)@
        },
{
    let mut outcomes: Vec<Option<(usize, usize)>> = Vec::new();
    let ghost first_rows = store.rows();
    let ghost first_accounts = accounts@;
    let ghost first = SyncState { rows: store.rows(), registry: registry@ };
    let ghost mut states: Seq<SyncState> = seq![first];
    let ghost mut results: Seq<Result<SyncResult, SyncError>> = Seq::empty();
    let mut i: usize = 0;
    proof {
        lemma_rows_keep_themselves(first_rows);
        assert(outcomes@ =~= outcomes_of(results));
    }
    while i < accounts.len()
        invariant
            i <= accounts.len(),
            accounts@.len() == first_accounts.len(),
            store.wf(),
            registry.wf(),
            rows_wf(first_rows),
            keeps_rows(first_rows, store.rows()),
            clock.requires(()),
            forall|url: &str| get.requires((url,)),
            forall|ms: u64| sleep.requires((ms,)),
            states.len() == i + 1,
            results.len() == i,
            outcomes@ == outcomes_of(results),
            states[0] == first,
            states[i as int] == (SyncState { rows: store.rows(), registry: registry@ }),
            forall|k: int|
                0 <= k < i ==> account_synced(
                    get,
                    clock,
                    first_accounts[k],
                    states[k],
                    now,
                    now_ms,
                    #[trigger] results[k],
                    states[k + 1],
                ),
            forall|k: int|
                0 <= k < i ==> #[trigger] accounts@[k] == account_after(
                    first_accounts[k],
                    results[k],
                    now,
                ),
            forall|k: int| i <= k < accounts@.len() ==> accounts@[k] == first_accounts[k],
        decreases accounts.len() - i,
    {
        let ghost rows_before = store.rows();
        let ghost states_before = states;
        let ghost results_before = results;
        let synced = sync_account(&accounts[i], store, registry, now, now_ms, get, sleep, clock);
        let ghost result = synced;
        let outcome = match synced {
            Ok(result) => Some((result.events_added, result.events_updated)),
            Err(_) => None,
        };
        if outcome.is_some() {
            accounts[i].last_synced_at = Some(now);
        }
        outcomes.push(outcome);
        proof {
            states = states_before.push(SyncState { rows: store.rows(), registry: registry@ });
            results = results_before.push(result);
            assert(outcomes@ =~= outcomes_of(results));
            assert forall|k: int| 0 <= k < i + 1 implies account_synced(
                get,
                clock,
                first_accounts[k],
                states[k],
                now,
                now_ms,
                #[trigger] results[k],
                states[k + 1],
            ) by {
                if k < i {
                    assert(results[k] == results_before[k]);
                    assert(states[k] == states_before[k]);
                    assert(states[k + 1] == states_before[k + 1]);
                }
            }
            assert forall|k: int| 0 <= k < i + 1 implies #[trigger] accounts@[k] == account_after(
                first_accounts[k],
                results[k],
                now,
            ) by {
                if k < i {
                    assert(results[k] == results_before[k]);
                }
            }
            assert forall|k: int| 0 <= k < first_rows.len() implies {
                &&& (#[trigger] store.rows()[k]).id == first_rows[k].id
                &&& store.rows()[k].external_id == first_rows[k].external_id
                &&& store.rows()[k].account_id == first_rows[k].account_id
                &&& store.rows()[k].created_at == first_rows[k].created_at
                &&& store.rows()[k].alert_state() == first_rows[k].alert_state()
            } by {
                assert(rows_before[k].id == first_rows[k].id);
            }
        }
        i += 1;
    }
    let r = summarize_sync(&outcomes);
    proof {
        assert(synced_in_turn(get, clock, first_accounts, states, results, now, now_ms));
        assert(all_synced(
            get,
            clock,
            first_accounts,
            first,
            now,
            now_ms,
            results,
            accounts@,
            SyncState { rows: store.rows(), registry: registry@ },
        ));
    }
    r
}

/// What one cycle of the scheduler did.
pub struct CycleReport {
    /// The counts of the full sync, where one was due.
    pub synced: Option<(usize, usize)>,
    /// The alerts that fired, in the order of the table.
    pub alerts: Vec<FiredAlert>,
}

/// Whether `report` and `rows_after` are what the alert part of a tick at
/// `now` makes of the table `rows`.
pub open spec fn is_tick(
    rows: Seq<CalendarEventView>,
    settings: Settings,
    now: i64,
    report: CycleReport,
    rows_after: Seq<CalendarEventView>,
) -> bool {
    &&& rows_after == ticked_rows(rows, settings, now)
    &&& fired_views(report.alerts@) == fired_among(rows, settings, now, rows.len() as int)
}

/// Runs one cycle of the scheduler at `now`: a full sync if one is due,
/// then the alert part of the tick.
///
/// A sync is due once five minutes have passed since `last_sync`. Where
/// none is due, the cycle is the tick, and nothing else changes. Where one
/// is due, the accounts are synchronised as `all_synced` says. If every
/// account failed, the cycle ends with that failure: no alert is looked at
/// and `last_sync` stays, so the next cycle tries again. Otherwise the
/// cycle succeeds, with the counts of the sync, `last_sync` is `now`, and
/// the tick runs on the table as the sync left it. A cycle with no accounts
/// succeeds.
pub fn monitor_cycle<G: Fn(&str) -> HttpAttempt, S: Fn(u64), K: Fn() -> u64>(
    accounts: &mut Vec<Account>,
    store: &mut EventStore,
    registry: &mut CircuitBreakerRegistry,
    settings: &Settings,
    last_sync: &mut i64,
    now: i64,
    now_ms: u64,
    get: &G,
    sleep: &S,
    clock: &K,
) -> (r: Result<CycleReport, String>)
    requires
        old(store).wf(),
        old(registry).wf(),
        forall|url: &str| get.requires((url,)),
        forall|ms: u64| sleep.requires((ms,)),
        clock.requires(()),
    ensures
        final(store).wf(),
        final(registry).wf(),
        !sync_is_due(now, *old(last_sync)) ==> {
            &&& r matches Ok(report)
            &&& report.synced is None
            &&& *final(last_sync) == *old(last_sync)
            &&& final(accounts)@ == old(accounts)@
            &&& final(registry)@ == old(registry)@
            &&& is_tick(old(store).rows(), *settings, now, report, final(store).rows())
        },
        sync_is_due(now, *old(last_sync)) ==> exists|
            results: Seq<Result<SyncResult, SyncError>>,
            synced: SyncState,
        |
            {
                &&& #[trigger] all_synced(
                    get,
                    clock,
                    old(accounts)@,
                    SyncState { rows: old(store).rows(), registry: old(registry)@ },
                    now,
                    now_ms,
                    results,
                    final(accounts)@,
                    synced,
                )
                &&& final(registry)@ == synced.registry
                &&& match sync_summary(outcomes_of(results)) {
                    None => {
                        &&& r matches Err(message)
                        &&& message@ == all_failed_message()
                        &&& *final(last_sync) == *old(last_sync)
                        &&& final(store).rows() == synced.rows
                    },
                    Some(totals) => {
                        &&& r matches Ok(report)
                        &&& report.synced == Some(totals)
                        &&& *final(last_sync) == now
                        &&& is_tick(synced.rows, *settings, now, report, final(store).rows())
                    },
                }
            },
        old(accounts)@.len() == 0 ==> {
            &&& r matches Ok(report)
            &&& sync_is_due(now, *old(last_sync)) ==> report.synced == Some((0usize, 0usize))
            &&& final(registry)@ == old(registry)@
            &&& is_tick(old(store).rows(), *settings, now, report, final(store).rows())
        },
{
    let mut synced: Option<(usize, usize)> = None;
    let ghost mut results: Seq<Result<SyncResult, SyncError>> = Seq::empty();
    if is_sync_due(now, *last_sync) {
        let outcome = sync_calendars(accounts, store, registry, now, now_ms, get, sleep, clock);
        proof {
            results = choose|results: Seq<Result<SyncResult, SyncError>>|
                {
                    &&& #[trigger] all_synced(
                        get,
                        clock,
                        old(accounts)@,
                        SyncState { rows: old(store).rows(), registry: old(registry)@ },
                        now,
                        now_ms,
                        results,
                        accounts@,
                        SyncState { rows: store.rows(), registry: registry@ },
                    )
                    &&& is_sync_report(outcome, results)
                };
        }
        match outcome {
            Ok(counts) => {
                *last_sync = now;
                synced = Some(counts);
            },
            Err(message) => {
                return Err(message);
            },
        }
    }
    let ghost synced_state = SyncState { rows: store.rows(), registry: registry@ };
    let alerts = run_alert_tick(store, settings, now);
    let report = CycleReport { synced, alerts };
    proof {
        if sync_is_due(now, *old(last_sync)) {
            assert(all_synced(
                get,
                clock,
                old(accounts)@,
                SyncState { rows: old(store).rows(), registry: old(registry)@ },
                now,
                now_ms,
                results,
                accounts@,
                synced_state,
            ));
        }
    }
    Ok(report)
}

/// How many notifications a sync contributes: one if there was one.
pub open spec fn sync_notices(synced: Option<(usize, usize)>) -> int {
    if synced is Some {
        1
    } else {
        0
    }
}

/// What the listeners are told after a cycle: the counts of the sync, if
/// there was one, then one alert for each that fired.
pub fn notifications(report: &CycleReport) -> (events: Vec<MonitorEvent>)
    ensures
        events@.len() == report.alerts@.len() + sync_notices(report.synced),
        report.synced matches Some(counts) ==> events@[0] == (MonitorEvent::SyncCompleted {
            added: counts.0,
            updated: counts.1,
        }),
        forall|k: int|
            0 <= k < report.alerts@.len() ==> {
                &&& events@[k + sync_notices(report.synced)] is AlertTriggered
                &&& events@[k + sync_notices(report.synced)]->AlertTriggered_0@
                    == (#[trigger] report.alerts@[k]).event@
            },
{
    let mut events: Vec<MonitorEvent> = Vec::new();
    match report.synced {
        Some((added, updated)) => {
            events.push(MonitorEvent::SyncCompleted { added, updated });
        },
        None => {},
    }
    let ghost shift = sync_notices(report.synced);
    let mut i: usize = 0;
    while i < report.alerts.len()
        invariant
            i <= report.alerts.len(),
            shift == sync_notices(report.synced),
            events@.len() == shift + i,
            report.synced matches Some(counts) ==> events@[0] == (MonitorEvent::SyncCompleted {
                added: counts.0,
                updated: counts.1,
            }),
            forall|k: int|
                0 <= k < i ==> {
                    &&& events@[k + shift] is AlertTriggered
                    &&& events@[k + shift]->AlertTriggered_0@ == (#[trigger] report.alerts@[k]).event@
                },
        decreases report.alerts.len() - i,
    {
        events.push(MonitorEvent::AlertTriggered(report.alerts[i].event.duplicate()));
        i += 1;
    }
    events
}

} // verus!
