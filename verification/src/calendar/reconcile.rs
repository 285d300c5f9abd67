//! Reconciliation: bringing the stored events of an account in line with
//! the candidates that a feed gave.
//!
//! Each candidate is looked up by its external identity within the account.
//! A candidate without a row is inserted, with the default alert state. A
//! candidate whose row differs in title, description, start, end or video
//! link gives the row its content. A candidate whose row does not differ
//! changes nothing and is not counted. No row's alert state is ever touched.
use vstd::prelude::*;
use crate::database::events::{
    inserted_row, lemma_position_among, lemma_position_unique, position_of_key, rows_wf,
    EventStore, MAX_ROWS,
};
use crate::models::event::{event_views, opt_text_eq, CalendarEvent, CalendarEventView};

verus! {

/// What is done with one candidate.
#[derive(Debug, Clone, Copy, PartialEq, Eq, Structural)]
pub enum StoreAction {
    /// The candidate has no row: insert it.
    Insert,
    /// The candidate's row differs: update it.
    Update,
    /// The candidate's row does not differ: leave it.
    Unchanged,
}

/// What is done with a candidate, given its row if it has one.
pub open spec fn planned_action(existing: Option<CalendarEventView>, candidate: CalendarEventView) -> StoreAction {
    match existing {
        None => StoreAction::Insert,
        Some(row) => if row.content_differs(candidate) {
            StoreAction::Update
        } else {
            StoreAction::Unchanged
        },
    }
}

/// Decides what is done with a candidate, given its row if it has one.
pub fn plan_store(existing: Option<&CalendarEvent>, candidate: &CalendarEvent) -> (action: StoreAction)
    ensures
        action == planned_action(
            match existing {
                Some(row) => Some(row@),
                None => None,
            },
            candidate@,
        ),
{
    match existing {
        None => StoreAction::Insert,
        Some(row) => {
            if row.title != candidate.title || !opt_text_eq(&row.description, &candidate.description)
                || row.start_time != candidate.start_time || row.end_time != candidate.end_time
                || !opt_text_eq(&row.video_link, &candidate.video_link) {
                StoreAction::Update
            } else {
                StoreAction::Unchanged
            }
        },
    }
}

/// The rows of a table with the counts of a reconciliation under way.
pub struct Tally {
    pub rows: Seq<CalendarEventView>,
    pub added: nat,
    pub updated: nat,
}

/// The tally after one more candidate.
pub open spec fn reconcile_step(tally: Tally, account_id: i64, candidate: CalendarEventView, now: i64) -> Tally {
    match position_of_key(tally.rows, candidate.external_id, account_id) {
        None => Tally {
            rows: tally.rows.push(
                inserted_row(candidate, account_id, (tally.rows.len() + 1) as i64, now),
            ),
            added: tally.added + 1,
            updated: tally.updated,
        },
        Some(i) => if tally.rows[i].content_differs(candidate) {
            Tally {
                rows: tally.rows.update(i, tally.rows[i].with_content_of(candidate, now)),
                added: tally.added,
                updated: tally.updated + 1,
            }
        } else {
            tally
        },
    }
}

/// The tally after the first `n` candidates, taken in order.
pub open spec fn reconciled_prefix(
    start: Tally,
    account_id: i64,
    candidates: Seq<CalendarEventView>,
    now: i64,
    n: int,
) -> Tally
    decreases n,
{
    if n <= 0 || n > candidates.len() {
        start
    } else {
        reconcile_step(
            reconciled_prefix(start, account_id, candidates, now, n - 1),
            account_id,
            candidates[n - 1],
            now,
        )
    }
}

/// The rows and counts after reconciling `rows` with all of `candidates`.
pub open spec fn reconciled(
    rows: Seq<CalendarEventView>,
    account_id: i64,
    candidates: Seq<CalendarEventView>,
    now: i64,
) -> Tally {
    reconciled_prefix(
        Tally { rows, added: 0, updated: 0 },
        account_id,
        candidates,
        now,
        candidates.len() as int,
    )
}

/// Whether `later` holds every row of `earlier` in its place, with its
/// identity, key, creation time and alert state.
pub open spec fn keeps_rows(earlier: Seq<CalendarEventView>, later: Seq<CalendarEventView>) -> bool {
    &&& earlier.len() <= later.len()
    &&& forall|i: int|
        0 <= i < earlier.len() ==> {
            &&& (#[trigger] later[i]).id == earlier[i].id
            &&& later[i].external_id == earlier[i].external_id
            &&& later[i].account_id == earlier[i].account_id
            &&& later[i].created_at == earlier[i].created_at
            &&& later[i].alert_state() == earlier[i].alert_state()
        }
}

/// One step adds a row exactly when the candidate has none, and never
/// takes one away; it counts at most one candidate.
pub proof fn lemma_step_grows(tally: Tally, account_id: i64, candidate: CalendarEventView, now: i64)
    ensures
        reconcile_step(tally, account_id, candidate, now).rows.len() == tally.rows.len() + (
        if position_of_key(tally.rows, candidate.external_id, account_id) is None {
            1int
        } else {
            0int
        }),
        reconcile_step(tally, account_id, candidate, now).added + reconcile_step(
            tally,
            account_id,
            candidate,
            now,
        ).updated <= tally.added + tally.updated + 1,
{
    lemma_position_among(tally.rows, candidate.external_id, account_id, tally.rows.len() as int);
}

/// The table never shrinks while candidates are reconciled.
pub proof fn lemma_prefix_grows(
    start: Tally,
    account_id: i64,
    candidates: Seq<CalendarEventView>,
    now: i64,
    m: int,
    n: int,
)
    requires
        0 <= m <= n <= candidates.len(),
    ensures
        reconciled_prefix(start, account_id, candidates, now, m).rows.len() <= reconciled_prefix(
            start,
            account_id,
            candidates,
            now,
            n,
        ).rows.len(),
    decreases n - m,
{
    if m < n {
        lemma_prefix_grows(start, account_id, candidates, now, m, n - 1);
        lemma_step_grows(
            reconciled_prefix(start, account_id, candidates, now, n - 1),
            account_id,
            candidates[n - 1],
            now,
        );
    }
}

/// The table grows by one row at most for each candidate.
pub proof fn lemma_prefix_grows_by_candidates(
    start: Tally,
    account_id: i64,
    candidates: Seq<CalendarEventView>,
    now: i64,
    n: int,
)
    requires
        0 <= n <= candidates.len(),
    ensures
        reconciled_prefix(start, account_id, candidates, now, n).rows.len() <= start.rows.len() + n,
    decreases n,
{
    if n > 0 {
        lemma_prefix_grows_by_candidates(start, account_id, candidates, now, n - 1);
        lemma_step_grows(
            reconciled_prefix(start, account_id, candidates, now, n - 1),
            account_id,
            candidates[n - 1],
            now,
        );
    }
}

/// One step that leaves the table within its size keeps it well formed and
/// keeps every row's identity, key and alert state.
pub proof fn lemma_step_keeps_rows(tally: Tally, account_id: i64, candidate: CalendarEventView, now: i64)
    requires
        rows_wf(tally.rows),
        reconcile_step(tally, account_id, candidate, now).rows.len() <= MAX_ROWS,
    ensures
        rows_wf(reconcile_step(tally, account_id, candidate, now).rows),
        keeps_rows(tally.rows, reconcile_step(tally, account_id, candidate, now).rows),
{
    lemma_position_among(tally.rows, candidate.external_id, account_id, tally.rows.len() as int);
}

/// Alert-state preservation: whatever the candidates, a reconciliation
/// that the table has room for keeps the table well formed, and every row
/// that was there keeps its place, its identity, its key, its creation time
/// and its alert state (snooze count, alerted flag, last threshold,
/// dismissal).
pub proof fn lemma_reconcile_preserves_alert_state(
    rows: Seq<CalendarEventView>,
    account_id: i64,
    candidates: Seq<CalendarEventView>,
    now: i64,
)
    requires
        rows_wf(rows),
        reconciled(rows, account_id, candidates, now).rows.len() <= MAX_ROWS,
    ensures
        rows_wf(reconciled(rows, account_id, candidates, now).rows),
        keeps_rows(rows, reconciled(rows, account_id, candidates, now).rows),
{
    lemma_prefix_keeps_rows(
        Tally { rows, added: 0, updated: 0 },
        account_id,
        candidates,
        now,
        candidates.len() as int,
    );
}

/// The first `n` steps keep the table well formed and every row in place.
pub proof fn lemma_prefix_keeps_rows(
    start: Tally,
    account_id: i64,
    candidates: Seq<CalendarEventView>,
    now: i64,
    n: int,
)
    requires
        rows_wf(start.rows),
        0 <= n <= candidates.len(),
        reconciled_prefix(start, account_id, candidates, now, n).rows.len() <= MAX_ROWS,
    ensures
        rows_wf(reconciled_prefix(start, account_id, candidates, now, n).rows),
        keeps_rows(start.rows, reconciled_prefix(start, account_id, candidates, now, n).rows),
        reconciled_prefix(start, account_id, candidates, now, n).added + reconciled_prefix(
            start,
            account_id,
            candidates,
            now,
            n,
        ).updated <= start.added + start.updated + n,
    decreases n,
{
    if n > 0 {
        lemma_prefix_grows(start, account_id, candidates, now, n - 1, n);
        lemma_prefix_keeps_rows(start, account_id, candidates, now, n - 1);
        let before = reconciled_prefix(start, account_id, candidates, now, n - 1);
        lemma_step_keeps_rows(before, account_id, candidates[n - 1], now);
        lemma_step_grows(before, account_id, candidates[n - 1], now);
    }
}

/// Whether no two candidates share an external identity and differ in
/// title, description, start, end or video link.
pub open spec fn candidates_agree(candidates: Seq<CalendarEventView>) -> bool {
    forall|i: int, j: int|
        0 <= i < j < candidates.len() && (#[trigger] candidates[i]).external_id == (
        #[trigger] candidates[j]).external_id ==> !candidates[i].content_differs(candidates[j])
}

/// Whether `rows` holds, for each of the first `n` candidates, a row of the
/// account that does not differ from it.
pub open spec fn settled(
    rows: Seq<CalendarEventView>,
    account_id: i64,
    candidates: Seq<CalendarEventView>,
    n: int,
) -> bool {
    forall|k: int|
        0 <= k < n && k < candidates.len() ==> {
            &&& position_of_key(rows, (#[trigger] candidates[k]).external_id, account_id) is Some
            &&& !rows[position_of_key(
                rows,
                candidates[k].external_id,
                account_id,
            )->0].content_differs(candidates[k])
        }
}

/// After the first `n` candidates, each of them has a row that does not
/// differ from it.
pub proof fn lemma_prefix_settles(
    start: Tally,
    account_id: i64,
    candidates: Seq<CalendarEventView>,
    now: i64,
    n: int,
)
    requires
        rows_wf(start.rows),
        0 <= n <= candidates.len(),
        reconciled_prefix(start, account_id, candidates, now, n).rows.len() <= MAX_ROWS,
        candidates_agree(candidates),
    ensures
        settled(reconciled_prefix(start, account_id, candidates, now, n).rows, account_id, candidates, n),
    decreases n,
{
    if n > 0 {
        lemma_prefix_grows(start, account_id, candidates, now, n - 1, n);
        lemma_prefix_settles(start, account_id, candidates, now, n - 1);
        lemma_prefix_keeps_rows(start, account_id, candidates, now, n - 1);
        let before = reconciled_prefix(start, account_id, candidates, now, n - 1);
        let c = candidates[n - 1];
        let after = reconcile_step(before, account_id, c, now);
        lemma_step_keeps_rows(before, account_id, c, now);
        lemma_position_among(before.rows, c.external_id, account_id, before.rows.len() as int);
        assert forall|k: int| 0 <= k < n implies {
            &&& position_of_key(after.rows, (#[trigger] candidates[k]).external_id, account_id) is Some
            &&& !after.rows[position_of_key(
                after.rows,
                candidates[k].external_id,
                account_id,
            )->0].content_differs(candidates[k])
        } by {
            let ck = candidates[k];
            if k == n - 1 {
                match position_of_key(before.rows, c.external_id, account_id) {
                    None => {
                        let at = before.rows.len() as int;
                        assert(after.rows[at].has_key(c.external_id, account_id));
                        lemma_position_unique(after.rows, c.external_id, account_id, at);
                    },
                    Some(i) => {
                        assert(after.rows[i].has_key(c.external_id, account_id));
                        lemma_position_unique(after.rows, c.external_id, account_id, i);
                    },
                }
            } else {
                let p = position_of_key(before.rows, ck.external_id, account_id)->0;
                lemma_position_among(
                    before.rows,
                    ck.external_id,
                    account_id,
                    before.rows.len() as int,
                );
                assert(after.rows[p].has_key(ck.external_id, account_id));
                lemma_position_unique(after.rows, ck.external_id, account_id, p);
                match position_of_key(before.rows, c.external_id, account_id) {
                    None => {},
                    Some(i) => {
                        if i == p && before.rows[i].content_differs(c) {
                            assert(ck.external_id == c.external_id);
                            assert(!ck.content_differs(c));
                        }
                    },
                }
            }
        }
    }
}

/// On rows that hold an undiffering row for each of the first `n`
/// candidates, reconciling those candidates changes nothing and counts
/// nothing.
pub proof fn lemma_settled_is_fixed(
    start: Tally,
    account_id: i64,
    candidates: Seq<CalendarEventView>,
    now: i64,
    n: int,
)
    requires
        0 <= n <= candidates.len(),
        settled(start.rows, account_id, candidates, n),
    ensures
        reconciled_prefix(start, account_id, candidates, now, n) == start,
    decreases n,
{
    if n > 0 {
        lemma_settled_is_fixed(start, account_id, candidates, now, n - 1);
        assert(position_of_key(start.rows, candidates[n - 1].external_id, account_id) is Some);
    }
}

/// Idempotent reconciliation: reconciling the same candidates a second time
/// adds nothing, updates nothing, and leaves every row as the first run
/// left it.
///
/// This holds of candidates of which no two share an external identity and
/// differ in content; of two such candidates the later overwrites the
/// earlier in each run, and each run counts it.
pub proof fn lemma_reconcile_idempotent(
    rows: Seq<CalendarEventView>,
    account_id: i64,
    candidates: Seq<CalendarEventView>,
    first: i64,
    second: i64,
)
    requires
        rows_wf(rows),
        reconciled(rows, account_id, candidates, first).rows.len() <= MAX_ROWS,
        candidates_agree(candidates),
    ensures
        ({
            let once = reconciled(rows, account_id, candidates, first);
            let twice = reconciled(once.rows, account_id, candidates, second);
            &&& twice.added == 0
            &&& twice.updated == 0
            &&& twice.rows == once.rows
        }),
{
    let start = Tally { rows, added: 0, updated: 0 };
    let n = candidates.len() as int;
    lemma_prefix_settles(start, account_id, candidates, first, n);
    let once = reconciled(rows, account_id, candidates, first);
    lemma_settled_is_fixed(
        Tally { rows: once.rows, added: 0, updated: 0 },
        account_id,
        candidates,
        second,
        n,
    );
}

/// Whether `again` has, place for place, the external identity and the
/// title, description, start, end and video link of `candidates`.
pub open spec fn same_content(candidates: Seq<CalendarEventView>, again: Seq<CalendarEventView>) -> bool {
    &&& again.len() == candidates.len()
    &&& forall|k: int|
        0 <= k < candidates.len() ==> {
            &&& (#[trigger] again[k]).external_id == candidates[k].external_id
            &&& !candidates[k].content_differs(again[k])
        }
}

/// A second run over candidates with the same identities and content, such
/// as a second sync of a feed that did not change makes them at a later
/// time, adds nothing, updates nothing, and leaves every row as the first
/// run left it.
///
/// This holds of candidates of which no two share an external identity and
/// differ in content.
pub proof fn lemma_second_run_changes_nothing(
    rows: Seq<CalendarEventView>,
    account_id: i64,
    candidates: Seq<CalendarEventView>,
    again: Seq<CalendarEventView>,
    first: i64,
    second: i64,
)
    requires
        rows_wf(rows),
        reconciled(rows, account_id, candidates, first).rows.len() <= MAX_ROWS,
        candidates_agree(candidates),
        same_content(candidates, again),
    ensures
        reconciled(
            reconciled(rows, account_id, candidates, first).rows,
            account_id,
            again,
            second,
        ) == (Tally {
            rows: reconciled(rows, account_id, candidates, first).rows,
            added: 0,
            updated: 0,
        }),
{
    let n = candidates.len() as int;
    lemma_prefix_settles(Tally { rows, added: 0, updated: 0 }, account_id, candidates, first, n);
    let once = reconciled(rows, account_id, candidates, first);
    assert forall|k: int| 0 <= k < n implies {
        &&& position_of_key(once.rows, (#[trigger] again[k]).external_id, account_id) is Some
        &&& !once.rows[position_of_key(once.rows, again[k].external_id, account_id)->0].content_differs(
            again[k],
        )
    } by {
        assert(again[k].external_id == candidates[k].external_id);
        assert(position_of_key(once.rows, candidates[k].external_id, account_id) is Some);
    }
    lemma_settled_is_fixed(Tally { rows: once.rows, added: 0, updated: 0 }, account_id, again, second, n);
}

/// Stores one candidate of `account_id`: inserts it, updates its row, or
/// leaves its row, and says which.
pub fn store_event(store: &mut EventStore, candidate: &CalendarEvent, account_id: i64, now: i64) -> (action:
    StoreAction)
    requires
        old(store).wf(),
        position_of_key(old(store).rows(), candidate.external_id@, account_id) is None ==> old(
            store,
        ).rows().len() < MAX_ROWS,
    ensures
        final(store).wf(),
        action == planned_action(
            match position_of_key(old(store).rows(), candidate.external_id@, account_id) {
                Some(i) => Some(old(store).rows()[i]),
                None => None,
            },
            candidate@,
        ),
        final(store).rows() == reconcile_step(
            Tally { rows: old(store).rows(), added: 0, updated: 0 },
            account_id,
            candidate@,
            now,
        ).rows,
{
    proof {
        lemma_position_among(
            store.rows(),
            candidate.external_id@,
            account_id,
            store.rows().len() as int,
        );
    }
    match store.find(candidate.external_id.as_str(), account_id) {
        None => {
            store.insert(candidate, account_id, now);
            StoreAction::Insert
        },
        Some(index) => {
            let action = plan_store(Some(store.get(index)), candidate);
            match action {
                StoreAction::Update => {
                    store.update_content(index, candidate, now);
                },
                _ => {},
            }
            action
        },
    }
}

/// Reconciles the stored events of `account_id` with `candidates`, taken in
/// order, and returns how many were added and how many updated. The table
/// must have room for the candidates that are new.
///
/// The table ends as `reconciled` says, and the counts are its counts.
pub fn reconcile(store: &mut EventStore, account_id: i64, candidates: &Vec<CalendarEvent>, now: i64) -> (counts: (
    usize,
    usize,
))
    requires
        old(store).wf(),
        reconciled(old(store).rows(), account_id, event_views(candidates@), now).rows.len()
            <= MAX_ROWS,
    ensures
        final(store).wf(),
        final(store).rows() == reconciled(
            old(store).rows(),
            account_id,
            event_views(candidates@),
            now,
        ).rows,
        counts.0 == reconciled(old(store).rows(), account_id, event_views(candidates@), now).added,
        counts.1 == reconciled(
            old(store).rows(),
            account_id,
            event_views(candidates@),
            now,
        ).updated,
        keeps_rows(old(store).rows(), final(store).rows()),
{
    let ghost start = Tally { rows: store.rows(), added: 0, updated: 0 };
    let ghost views = event_views(candidates@);
    let mut added: usize = 0;
    let mut updated: usize = 0;
    let mut i: usize = 0;
    while i < candidates.len()
        invariant
            i <= candidates.len(),
            store.wf(),
            rows_wf(start.rows),
            start.added == 0,
            start.updated == 0,
            views == event_views(candidates@),
            reconciled_prefix(start, account_id, views, now, views.len() as int).rows.len()
                <= MAX_ROWS,
            store.rows() == reconciled_prefix(start, account_id, views, now, i as int).rows,
            added == reconciled_prefix(start, account_id, views, now, i as int).added,
            updated == reconciled_prefix(start, account_id, views, now, i as int).updated,
        decreases candidates.len() - i,
    {
        proof {
            let before = reconciled_prefix(start, account_id, views, now, i as int);
            lemma_prefix_grows(start, account_id, views, now, i as int, i as int + 1);
            lemma_prefix_grows(start, account_id, views, now, i as int + 1, views.len() as int);
            lemma_prefix_keeps_rows(start, account_id, views, now, i as int + 1);
            lemma_step_grows(before, account_id, views[i as int], now);
            assert(views[i as int] == candidates@[i as int]@);
        }
        match store_event(store, &candidates[i], account_id, now) {
            StoreAction::Insert => {
                added = added + 1;
            },
            StoreAction::Update => {
                updated = updated + 1;
            },
            StoreAction::Unchanged => {},
        }
        i += 1;
    }
    proof {
        lemma_prefix_keeps_rows(start, account_id, views, now, candidates.len() as int);
    }
    (added, updated)
}

/// Reconciles the stored events of `account_id` with `candidates` if the
/// table has room for those that are new, and returns how many were added
/// and how many updated; else changes nothing and returns `None`.
pub fn try_reconcile(store: &mut EventStore, account_id: i64, candidates: &Vec<CalendarEvent>, now: i64) -> (r:
    Option<(usize, usize)>)
    requires
        old(store).wf(),
    ensures
        final(store).wf(),
        keeps_rows(old(store).rows(), final(store).rows()),
        match r {
            Some(counts) => reconciled(
                old(store).rows(),
                account_id,
                event_views(candidates@),
                now,
            ) == (Tally { rows: final(store).rows(), added: counts.0 as nat, updated: counts.1 as nat }),
            None => {
                &&& reconciled(
                    old(store).rows(),
                    account_id,
                    event_views(candidates@),
                    now,
                ).rows.len() > MAX_ROWS
                &&& final(store).rows() == old(store).rows()
            },
        },
{
    let ghost start = Tally { rows: store.rows(), added: 0, updated: 0 };
    let ghost views = event_views(candidates@);
    let mut work = store.duplicate();
    let mut added: usize = 0;
    let mut updated: usize = 0;
    let mut i: usize = 0;
    while i < candidates.len()
        invariant
            i <= candidates.len(),
            work.wf(),
            store.rows() == start.rows,
            rows_wf(start.rows),
            start.added == 0,
            start.updated == 0,
            views == event_views(candidates@),
            work.rows() == reconciled_prefix(start, account_id, views, now, i as int).rows,
            added == reconciled_prefix(start, account_id, views, now, i as int).added,
            updated == reconciled_prefix(start, account_id, views, now, i as int).updated,
            added + updated <= i,
        decreases candidates.len() - i,
    {
        let ghost before = reconciled_prefix(start, account_id, views, now, i as int);
        proof {
            lemma_step_grows(before, account_id, views[i as int], now);
            assert(views[i as int] == candidates@[i as int]@);
        }
        let candidate = &candidates[i];
        if work.len() >= MAX_ROWS && work.find(candidate.external_id.as_str(), account_id).is_none() {
            proof {
                lemma_prefix_grows(start, account_id, views, now, i as int + 1, views.len() as int);
            }
            return None;
        }
        match store_event(&mut work, candidate, account_id, now) {
            StoreAction::Insert => {
                added = added + 1;
            },
            StoreAction::Update => {
                updated = updated + 1;
            },
            StoreAction::Unchanged => {},
        }
        i += 1;
    }
    proof {
        lemma_prefix_keeps_rows(start, account_id, views, now, candidates.len() as int);
    }
    *store = work;
    Some((added, updated))
}

} // verus!
