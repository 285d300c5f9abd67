//! The state behind the screens: which view is shown, what the user has
//! typed, and which alerts are on display.
use vstd::prelude::*;
use crate::models::alert::{AlertInfo, AlertType};
use crate::text::str_eq;

pub mod views;

verus! {

/// What the user does on the alerts view.
#[derive(Debug, Clone)]
pub enum AlertsMessage {
    /// Snooze the alert of the event with this external identity.
    SnoozeAlert(String),
    /// Dismiss the alert of the event with this external identity.
    DismissAlert(String),
    ClearHistory,
    TestAlert(AlertType),
}

/// The state of the application's window.
#[derive(Debug, Clone)]
pub struct UiState {
    pub current_view: views::View,
    /// The account name as typed.
    pub account_name: String,
    /// The feed address as typed.
    pub ics_url: String,
    pub sync_status: String,
    /// Whether an operation is under way.
    pub loading: bool,
    /// When the last sync succeeded.
    pub last_sync_time: Option<i64>,
}

impl UiState {
    /// The state at start-up: the calendar view, empty inputs, "Ready".
    pub fn new() -> (state: Self)
        ensures
            state.current_view is Calendar,
            state.account_name@.len() == 0,
            state.ics_url@.len() == 0,
            state.sync_status@ == "Ready"@,
            !state.loading,
            state.last_sync_time is None,
    {
        Self {
            current_view: views::View::Calendar,
            account_name: String::new(),
            ics_url: String::new(),
            sync_status: String::from_str("Ready"),
            loading: false,
            last_sync_time: None,
        }
    }
}

/// The external identities of the events of a list of alerts.
pub open spec fn alert_keys(alerts: Seq<AlertInfo>) -> Seq<Seq<char>> {
    alerts.map_values(|alert: AlertInfo| alert.event.external_id@)
}

/// Those of the first `n` keys that are not `dismissed`, in order.
pub open spec fn keys_without(keys: Seq<Seq<char>>, dismissed: Seq<char>, n: int) -> Seq<Seq<char>>
    decreases n,
{
    if n <= 0 || n > keys.len() {
        Seq::empty()
    } else if keys[n - 1] != dismissed {
        keys_without(keys, dismissed, n - 1).push(keys[n - 1])
    } else {
        keys_without(keys, dismissed, n - 1)
    }
}

/// The alerts on display and those that were.
pub struct AlertsView {
    active_alerts: Vec<AlertInfo>,
    alert_history: Vec<AlertInfo>,
}

impl AlertsView {
    /// The external identities of the events whose alerts are on display.
    pub closed spec fn active(&self) -> Seq<Seq<char>> {
        alert_keys(self.active_alerts@)
    }

    /// The external identities of the events whose alerts were shown.
    pub closed spec fn history(&self) -> Seq<Seq<char>> {
        alert_keys(self.alert_history@)
    }

    /// A view without alerts.
    pub fn new() -> (view: Self)
        ensures
            view.active().len() == 0,
            view.history().len() == 0,
    {
        Self { active_alerts: Vec::new(), alert_history: Vec::new() }
    }

    /// The number of alerts on display.
    pub fn active_count(&self) -> (n: usize)
        ensures
            n == self.active().len(),
    {
        self.active_alerts.len()
    }

    /// The number of alerts that were shown.
    pub fn history_count(&self) -> (n: usize)
        ensures
            n == self.history().len(),
    {
        self.alert_history.len()
    }

    /// Follows what the user did. Dismissing takes the alerts of the event
    /// off display; clearing empties the history; snoozing and testing are
    /// left to the controller.
    pub fn update(&mut self, message: AlertsMessage)
        ensures
            match message {
                AlertsMessage::DismissAlert(id) => {
                    &&& final(self).active() == keys_without(
                        old(self).active(),
                        id@,
                        old(self).active().len() as int,
                    )
                    &&& final(self).history() == old(self).history()
                },
                AlertsMessage::ClearHistory => {
                    &&& final(self).active() == old(self).active()
                    &&& final(self).history().len() == 0
                },
                _ => {
                    &&& final(self).active() == old(self).active()
                    &&& final(self).history() == old(self).history()
                },
            },
    {
        match message {
            AlertsMessage::SnoozeAlert(_) => {},
            AlertsMessage::DismissAlert(id) => {
                let mut kept: Vec<AlertInfo> = Vec::new();
                let ghost before = self.active();
                let total: usize = self.active_alerts.len();
                let mut taken: usize = 0;
                let mut rest: Vec<AlertInfo> = Vec::new();
                core::mem::swap(&mut rest, &mut self.active_alerts);
                let ghost all = rest@;
                assert(alert_keys(all) == before);
                while rest.len() > 0
                    invariant
                        all.len() == total,
                        alert_keys(all) == before,
                        rest@.len() + taken == total,
                        forall|k: int| 0 <= k < rest@.len() ==> rest@[k] == all[k + taken],
                        alert_keys(kept@) == keys_without(before, id@, taken as int),
                    decreases rest@.len(),
                {
                    let alert = rest.remove(0);
                    assert(alert == all[taken as int]);
                    assert(before[taken as int] == alert.event.external_id@);
                    if !str_eq(alert.event.external_id.as_str(), id.as_str()) {
                        let ghost kept_before = kept@;
                        kept.push(alert);
                        assert(alert_keys(kept@) =~= alert_keys(kept_before).push(
                            alert.event.external_id@,
                        ));
                    }
                    taken = taken + 1;
                }
                self.active_alerts = kept;
            },
            AlertsMessage::ClearHistory => {
                self.alert_history.clear();
            },
            AlertsMessage::TestAlert(_) => {},
        }
    }

    /// Puts an alert on display and into the history.
    pub fn add_alert(&mut self, alert: AlertInfo)
        ensures
            final(self).active() == old(self).active().push(alert.event.external_id@),
            final(self).history() == old(self).history().push(alert.event.external_id@),
    {
        let copy = AlertInfo {
            event: alert.event.duplicate(),
            alert_type: alert.alert_type,
            minutes_remaining: alert.minutes_remaining,
        };
        let ghost active_before = self.active_alerts@;
        let ghost history_before = self.alert_history@;
        self.active_alerts.push(copy);
        self.alert_history.push(alert);
        assert(alert_keys(self.active_alerts@) =~= alert_keys(active_before).push(
            alert.event.external_id@,
        ));
        assert(alert_keys(self.alert_history@) =~= alert_keys(history_before).push(
            alert.event.external_id@,
        ));
    }

    /// Replaces the alerts on display.
    pub fn set_active_alerts(&mut self, alerts: Vec<AlertInfo>)
        ensures
            final(self).active() == alert_keys(alerts@),
            final(self).history() == old(self).history(),
    {
        self.active_alerts = alerts;
    }
}

} // verus!
