//! The fraction of the current UTC day that is still to come.
use crate::rounding::{pow10, round, rounded};
use crate::time_point::{seconds_of, TimePoint};
use crate::window::FRACTION_DIGITS;
use vstd::arithmetic::div_mod::{
    lemma_fundamental_div_mod, lemma_fundamental_div_mod_converse, lemma_mod_bound,
    lemma_mod_multiples_vanish,
};
use vstd::prelude::*;

verus! {

pub const SECONDS_PER_DAY: i64 = 86400;

/// A bound on Unix seconds well inside the calendar range of the date
/// library (years -262143 to 262142): every instant within it, and a day
/// after it, has a calendar date there.
pub const CALENDAR_SECONDS_BOUND: i64 = 8_000_000_000_000;

pub open spec fn in_calendar_range(secs: int) -> bool {
    -CALENDAR_SECONDS_BOUND <= secs <= CALENDAR_SECONDS_BOUND
}

/// The first second of the UTC day after the one holding second `secs`.
pub open spec fn next_midnight(secs: int) -> int {
    (secs / 86400 + 1) * 86400
}

/// The fraction of the UTC day still to come at second `secs`, in thousandths
/// rounded half away from zero.
pub open spec fn day_left_fraction(secs: int) -> int {
    rounded(next_midnight(secs) - secs, SECONDS_PER_DAY as int, FRACTION_DIGITS as nat)
}

/// Relies on chrono's `DateTime::<Utc>::checked_add_days` with one day: the
/// same time of day on the next date, which in UTC is 86400 seconds later.
/// It fails only at the edges of chrono's calendar range.
#[verifier::external_body]
fn add_one_day(secs: i64) -> (r: Option<i64>)
    ensures
        r matches Some(v) ==> v == secs + 86400,
        in_calendar_range(secs as int) ==> r is Some,
{
    let t = chrono::DateTime::from_timestamp(secs, 0)?;
    t.checked_add_days(chrono::Days::new(1)).map(|d| d.timestamp())
}

/// Relies on chrono's `Timelike::with_hour` on `DateTime<Utc>`: the hour of
/// the day replaced, minutes and seconds kept; `None` for an hour over 23.
#[verifier::external_body]
fn with_hour(secs: i64, hour: u32) -> (r: Option<i64>)
    ensures
        r matches Some(v) ==> hour < 24 && v == secs - secs % 86400 + hour * 3600 + secs % 3600,
        hour < 24 && in_calendar_range(secs as int) ==> r is Some,
{
    let t = chrono::DateTime::from_timestamp(secs, 0)?;
    chrono::Timelike::with_hour(&t, hour).map(|d| d.timestamp())
}

/// Relies on chrono's `Timelike::with_minute` on `DateTime<Utc>`: the minute
/// of the hour replaced, the rest kept; `None` for a minute over 59.
#[verifier::external_body]
fn with_minute(secs: i64, min: u32) -> (r: Option<i64>)
    ensures
        r matches Some(v) ==> min < 60 && v == secs - secs % 3600 + min * 60 + secs % 60,
        min < 60 && in_calendar_range(secs as int) ==> r is Some,
{
    let t = chrono::DateTime::from_timestamp(secs, 0)?;
    chrono::Timelike::with_minute(&t, min).map(|d| d.timestamp())
}

/// Relies on chrono's `Timelike::with_second` on `DateTime<Utc>`: the second
/// of the minute replaced, the rest kept; `None` for a second over 59.
#[verifier::external_body]
fn with_second(secs: i64, sec: u32) -> (r: Option<i64>)
    ensures
        r matches Some(v) ==> sec < 60 && v == secs - secs % 60 + sec,
        sec < 60 && in_calendar_range(secs as int) ==> r is Some,
{
    let t = chrono::DateTime::from_timestamp(secs, 0)?;
    chrono::Timelike::with_second(&t, sec).map(|d| d.timestamp())
}

/// Relies on chrono's `Utc::now`: the system's current time, in milliseconds
/// since the Unix epoch. It returns only for a clock at or after the epoch
/// (chrono panics otherwise); nothing else is known of the value.
#[verifier::external_body]
fn utc_now_millis() -> (r: i64)
    ensures
        r >= 0,
{
    chrono::Utc::now().timestamp_millis()
}

/// The remaining fraction of a day from second `now_secs` to second
/// `end_secs`, in thousandths rounded half away from zero.
pub fn day_left_from(now_secs: i64, end_secs: i64) -> (r: i128)
    ensures
        r == rounded(end_secs - now_secs, SECONDS_PER_DAY as int, FRACTION_DIGITS as nat),
{
    proof {
        reveal_with_fuel(pow10, 4);
        assert(pow10(FRACTION_DIGITS as nat) == 1000);
    }
    round(end_secs as i128 - now_secs as i128, SECONDS_PER_DAY as i128, FRACTION_DIGITS)
}

/// Moving one day on and then setting hour, minute and second to zero lands
/// on the next midnight, passing only through instants within a day of it.
proof fn lemma_midnight_steps(s: int)
    ensures
        ({
            let n = s + 86400;
            let h = n - n % 86400 + n % 3600;
            let m = h - h % 3600 + h % 60;
            let z = m - m % 60;
            &&& z == next_midnight(s)
            &&& n - 86400 < h <= n
            &&& n - 86400 < m <= n
        }),
{
    let n = s + 86400;
    let q = s / 86400 + 1;
    lemma_fundamental_div_mod(s, 86400);
    lemma_mod_bound(s, 86400);
    let t = s % 86400;
    lemma_fundamental_div_mod_converse(n, 86400, q, t);
    lemma_mod_multiples_vanish(24 * q, t, 3600);
    lemma_mod_bound(t, 3600);
    let u = t % 3600;
    let h = n - t + u;
    assert(h == 3600 * (24 * q) + u);
    lemma_fundamental_div_mod_converse(h, 3600, 24 * q, u);
    lemma_mod_multiples_vanish(1440 * q, u, 60);
    assert(h == 60 * (1440 * q) + u);
    lemma_mod_bound(u, 60);
    let w = u % 60;
    let m = h - u + w;
    lemma_fundamental_div_mod_converse(m, 60, 1440 * q, w);
}

/// The fraction of a UTC day still to come at an instant.
pub struct TimeLeft {
    now: TimePoint,
}

impl TimeLeft {
    pub closed spec fn now_point(&self) -> TimePoint {
        self.now
    }

    pub fn new(now: TimePoint) -> (r: TimeLeft)
        ensures
            r.now_point() == now,
    {
        TimeLeft { now }
    }

    /// The fraction of the UTC day still to come at `now`, counted in whole
    /// seconds up to the next midnight, in thousandths; `None` only where the
    /// next midnight lies outside the calendar range.
    pub fn get_day_left(&self) -> (r: Option<i128>)
        ensures
            r matches Some(v) ==> v == day_left_fraction(seconds_of(self.now_point().millis as int)),
            in_calendar_range(seconds_of(self.now_point().millis as int))
                && in_calendar_range(seconds_of(self.now_point().millis as int) + 86400) ==> r is Some,
    {
        let now = self.now.unix_seconds();
        proof {
            lemma_midnight_steps(now as int);
        }
        let next = match add_one_day(now) {
            Some(v) => v,
            None => return None,
        };
        let hour = match with_hour(next, 0) {
            Some(v) => v,
            None => return None,
        };
        let minute = match with_minute(hour, 0) {
            Some(v) => v,
            None => return None,
        };
        let end_of_day = match with_second(minute, 0) {
            Some(v) => v,
            None => return None,
        };
        Some(day_left_from(now, end_of_day))
    }
}

impl Default for TimeLeft {
    /// The current UTC instant, read from the system clock.
    fn default() -> (r: TimeLeft)
        ensures
            r.now_point().millis >= 0,
    {
        TimeLeft { now: TimePoint { millis: utc_now_millis() } }
    }
}

} // verus!
