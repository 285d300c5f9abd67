//! The wall clock.
//!
//! Instants are whole seconds since 1970-01-01T00:00:00Z. Every function of
//! the library that needs the current time has a twin that takes it as an
//! argument (`.._at`); the twin states what is computed, and the clock-reading
//! function hands it whatever the clock gave.
use vstd::prelude::*;

verus! {

/// `chrono::Utc::now`, as seconds since the Unix epoch. The result depends on
/// the clock, so nothing is claimed of it.
#[verifier::external_body]
pub(crate) fn utc_now() -> i64 {
    chrono::Utc::now().timestamp()
}

/// Integer division that rounds toward zero.
pub open spec fn truncating_div(x: int, d: int) -> int
    recommends
        d > 0,
{
    if x >= 0 {
        x / d
    } else {
        -((-x) / d)
    }
}

/// Whole minutes from `now` until `start`, rounded toward zero; negative
/// once `start` has passed.
pub open spec fn minutes_until(start: int, now: int) -> int {
    truncating_div(start - now, 60)
}

/// Whole hours from `start` until `end`, rounded toward zero.
pub open spec fn hours_between(start: int, end: int) -> int {
    truncating_div(end - start, 3600)
}

/// Whole minutes from `now` until `start`, rounded toward zero.
pub fn whole_minutes_until(start: i64, now: i64) -> (m: i64)
    ensures
        m == minutes_until(start as int, now as int),
{
    let delta: i128 = start as i128 - now as i128;
    (delta / 60) as i64
}

/// Whole hours from `start` until `end`, rounded toward zero.
pub fn whole_hours_between(start: i64, end: i64) -> (h: i64)
    ensures
        h == hours_between(start as int, end as int),
{
    let delta: i128 = end as i128 - start as i128;
    (delta / 3600) as i64
}

/// `t` moved by `delta` seconds, held at the ends of the `i64` range.
pub open spec fn shifted(t: int, delta: int) -> int {
    if t + delta > i64::MAX {
        i64::MAX as int
    } else if t + delta < i64::MIN {
        i64::MIN as int
    } else {
        t + delta
    }
}

/// `t` moved by `delta` seconds, held at the ends of the `i64` range.
pub fn shift(t: i64, delta: i64) -> (r: i64)
    ensures
        r == shifted(t as int, delta as int),
{
    let moved: i128 = t as i128 + delta as i128;
    if moved > i64::MAX as i128 {
        i64::MAX
    } else if moved < i64::MIN as i128 {
        i64::MIN
    } else {
        moved as i64
    }
}

} // verus!
