//! Telling the rider when the driver is due.

use crate::bindings::{clock_reading, clock_text, now_utc_secs};
use vstd::arithmetic::div_mod::lemma_mod_multiples_vanish;
use vstd::pervasive::unreached;
use vstd::prelude::*;

verus! {

/// Seconds in a day. Days are counted without leap seconds, as Unix time
/// counts them.
pub const DAY_SECS: i128 = 86_400;

/// A whole number of days, in seconds, that is longer than any span between
/// two moments that fit in 64 bits: 2 to the 48th days.
pub const LIFT_DAYS: i128 = 281_474_976_710_656;

/// The same span in seconds. Adding it to a moment changes its day and
/// keeps its time of day.
pub const LIFT_SECS: i128 = 24_319_437_987_800_678_400;

/// The moment that lies a number of minutes after another, in seconds since
/// the Unix epoch.
pub open spec fn minutes_after(now_secs: i64, minutes: i32) -> int {
    now_secs + 60 * minutes
}

/// The UTC time of day, as `HH:MM`, at which a wait of `estimated_time_min`
/// minutes that starts now is over. The moment at which the wait starts is
/// the one the system clock shows; whatever it shows, there is a reading, and
/// it is the time of day of the moment that many minutes later.
pub fn calculate_eta(estimated_time_min: i32) -> (text: String)
    ensures
        exists|now_secs: i64|
            text@ == clock_text(#[trigger] minutes_after(now_secs, estimated_time_min)),
{
    let now_secs: i64 = now_utc_secs();
    eta_at(now_secs, estimated_time_min)
}

/// The UTC time of day, as `HH:MM`, at which a wait of `estimated_time_min`
/// minutes that starts at `now_secs` is over. The time of day of a moment
/// depends only on where in its day the moment lies, so there is a reading
/// for every moment, however far from the present.
pub fn eta_at(now_secs: i64, estimated_time_min: i32) -> (text: String)
    ensures
        text@ == clock_text(minutes_after(now_secs, estimated_time_min)),
{
    let due: i128 = now_secs as i128 + 60 * (estimated_time_min as i128);
    let lifted: i128 = due + LIFT_SECS;
    let in_day: i128 = lifted % DAY_SECS;
    proof {
        lemma_mod_multiples_vanish(LIFT_DAYS as int, due as int, DAY_SECS as int);
        assert(DAY_SECS * LIFT_DAYS == LIFT_SECS);
        assert(in_day == due % 86400);
    }
    match clock_reading(in_day as i64) {
        Some(text) => text,
        None => unreached(),
    }
}

} // verus!
