//! Instants in UTC, and what can be said of the time between two of them.

use chrono::{DateTime, NaiveDateTime, TimeZone, Utc};
use vstd::prelude::*;

verus! {

/// The first second of the calendar that timestamps are written in.
pub const MIN_SECS: i64 = -8_334_601_228_800;

/// The last second of the calendar that timestamps are written in.
pub const MAX_SECS: i64 = 8_210_266_876_799;

/// An instant in UTC: the seconds since 1970-01-01T00:00:00Z, and the nanoseconds since that
/// second began. Within a leap second the nanoseconds run on from 1 000 000 000.
#[derive(Debug, Clone, Copy, PartialEq, Eq, Structural)]
pub struct Timestamp {
    pub secs: i64,
    pub nanos: u32,
}

impl Timestamp {
    /// Whether the calendar has this instant.
    pub open spec fn valid(self) -> bool {
        &&& MIN_SECS <= self.secs <= MAX_SECS
        &&& self.nanos < 2_000_000_000
        &&& self.nanos >= 1_000_000_000 ==> self.secs as int % 60 == 59
    }

    /// Whether this instant is not later than `other`.
    pub open spec fn not_after(self, other: Timestamp) -> bool {
        self.secs < other.secs || (self.secs == other.secs && self.nanos <= other.nanos)
    }

    /// The second of the day.
    pub open spec fn second_of_day(self) -> int {
        self.secs as int % 86_400
    }
}

/// Whether an optional instant, where there is one, is in the calendar.
pub open spec fn valid_opt(t: Option<Timestamp>) -> bool {
    t is Some ==> t->0.valid()
}

/// The leap second that lies between two instants beyond their counts of seconds: one second
/// where the instant that is earlier in its day stands within a leap second.
pub open spec fn leap_carry(now: Timestamp, past: Timestamp) -> int {
    if now.second_of_day() > past.second_of_day() && past.nanos >= 1_000_000_000 {
        1
    } else if now.second_of_day() < past.second_of_day() && now.nanos >= 1_000_000_000 {
        -1
    } else {
        0
    }
}

/// The nanoseconds from `past` to `now`; negative where `past` lies in the future.
pub open spec fn elapsed_nanos(now: Timestamp, past: Timestamp) -> int {
    (now.secs - past.secs + leap_carry(now, past)) * 1_000_000_000 + (now.nanos - past.nanos)
}

/// `n / d` with the fraction dropped.
pub open spec fn toward_zero(n: int, d: int) -> int {
    if n >= 0 {
        n / d
    } else {
        -((-n) / d)
    }
}

/// The whole days from `past` to `now`.
pub open spec fn whole_days(now: Timestamp, past: Timestamp) -> int {
    toward_zero(elapsed_nanos(now, past), 86_400_000_000_000)
}

/// The nanoseconds from `past` to `now`.
pub(crate) fn nanos_between(now: Timestamp, past: Timestamp) -> (r: i128)
    ensures
        r == elapsed_nanos(now, past),
        -20_000_000_000_000_000_000_000_000_000 < r < 20_000_000_000_000_000_000_000_000_000,
{
    let day_now: i128 = second_of_day(now);
    let day_past: i128 = second_of_day(past);
    let carry: i128 = if day_now > day_past && past.nanos >= 1_000_000_000 {
        1
    } else if day_now < day_past && now.nanos >= 1_000_000_000 {
        -1
    } else {
        0
    };
    (now.secs as i128 - past.secs as i128 + carry) * 1_000_000_000 + (now.nanos as i128 - past.nanos as i128)
}

/// The second of the day of `t`.
fn second_of_day(t: Timestamp) -> (r: i128)
    ensures
        r == t.second_of_day(),
{
    let shifted: u128 = (t.secs as i128 + 9_223_372_036_854_806_400) as u128;
    (shifted % 86_400) as i128
}

/// `n / d` with the fraction dropped, where the quotient fits.
fn quotient(n: i128, d: u64) -> (r: i64)
    requires
        d >= 60_000_000_000,
        -20_000_000_000_000_000_000_000_000_000 < n < 20_000_000_000_000_000_000_000_000_000,
    ensures
        r == toward_zero(n as int, d as int),
{
    let size: u128 = if n >= 0 {
        n as u128
    } else {
        (-n) as u128
    };
    let q: u128 = size / (d as u128);
    assert(q <= 1_000_000_000_000_000_000) by (nonlinear_arith)
        requires
            q == size / (d as u128),
            size < 20_000_000_000_000_000_000_000_000_000,
            d >= 60_000_000_000,
    ;
    if n >= 0 {
        q as i64
    } else {
        -(q as i64)
    }
}

/// The whole days from `past` to `now`.
pub(crate) fn days_between(now: Timestamp, past: Timestamp) -> (r: i64)
    ensures
        r == whole_days(now, past),
{
    quotient(nanos_between(now, past), 86_400_000_000_000)
}

impl Timestamp {
    /// Whether this instant is not later than `other`.
    pub(crate) fn is_not_after(self, other: Timestamp) -> (r: bool)
        ensures
            r == self.not_after(other),
    {
        self.secs < other.secs || (self.secs == other.secs && self.nanos <= other.nanos)
    }
}

/// Whether the instant so many seconds after `t` is in the calendar.
pub open spec fn can_wait(t: Timestamp, seconds: int) -> bool {
    MIN_SECS <= t.secs + seconds <= MAX_SECS && t.nanos < 1_000_000_000
}

/// Whether an instant lies more than so many seconds before `now`.
pub open spec fn more_than_ago(t: Timestamp, seconds: int, now: Timestamp) -> bool {
    t.secs + seconds < now.secs || (t.secs + seconds == now.secs && t.nanos < now.nanos)
}

/// The instant so many seconds after `t`.
pub open spec fn later(t: Timestamp, seconds: int) -> Timestamp {
    Timestamp { secs: (t.secs + seconds) as i64, nanos: t.nanos }
}

/// The instant so many seconds after `t`.
pub(crate) fn seconds_after(t: Timestamp, seconds: i64) -> (r: Timestamp)
    requires
        can_wait(t, seconds as int),
    ensures
        r == later(t, seconds as int),
        r.valid(),
        r.secs == t.secs + seconds,
{
    Timestamp { secs: t.secs + seconds, nanos: t.nanos }
}

/// `chrono::Utc::now`: the instant that the system clock shows. It lies after 1970 and within
/// the calendar, and never within a leap second; which instant it is, only the clock knows.
#[verifier::external_body]
pub(crate) fn now() -> (r: Timestamp)
    ensures
        r.valid(),
        r.secs >= 0,
        r.nanos < 1_000_000_000,
{
    let t = Utc::now();
    Timestamp { secs: t.timestamp(), nanos: t.timestamp_subsec_nanos() }
}

/// The instant, in UTC, that a text writes as RFC 3339 has it; none where the text is no such
/// timestamp.
pub uninterp spec fn rfc3339(text: Seq<char>) -> Option<Timestamp>;

/// `chrono::DateTime::parse_from_rfc3339`: the instant that `text` writes, moved to UTC. What it
/// gives is an instant of the calendar.
#[verifier::external_body]
pub(crate) fn parse_rfc3339(text: &str) -> (r: Option<Timestamp>)
    ensures
        r == rfc3339(text@),
        valid_opt(r),
{
    match DateTime::parse_from_rfc3339(text) {
        Ok(t) => Some(Timestamp { secs: t.timestamp(), nanos: t.timestamp_subsec_nanos() }),
        Err(_) => None,
    }
}

/// The instant that a text writes in the given date and time format, read as UTC; none where the
/// text does not have that format.
pub uninterp spec fn naive_utc(text: Seq<char>, format: Seq<char>) -> Option<Timestamp>;

/// `chrono::NaiveDateTime::parse_from_str`: the date and time that `text` writes in `format`,
/// taken as UTC. What it gives is an instant of the calendar.
#[verifier::external_body]
pub(crate) fn parse_naive_utc(text: &str, format: &str) -> (r: Option<Timestamp>)
    ensures
        r == naive_utc(text@, format@),
        valid_opt(r),
{
    match NaiveDateTime::parse_from_str(text, format) {
        Ok(n) => {
            let t = Utc.from_utc_datetime(&n);
            Some(Timestamp { secs: t.timestamp(), nanos: t.timestamp_subsec_nanos() })
        },
        Err(_) => None,
    }
}

/// How RFC 3339 writes an instant, with the offset `+00:00`.
pub uninterp spec fn rfc3339_text(secs: i64, nanos: u32) -> Seq<char>;

/// `chrono::DateTime::to_rfc3339`: the text of an instant of the calendar.
#[verifier::external_body]
pub(crate) fn format_rfc3339(t: Timestamp) -> (r: String)
    requires
        t.valid(),
    ensures
        r@ == rfc3339_text(t.secs, t.nanos),
{
    DateTime::<Utc>::from_timestamp(t.secs, t.nanos).expect("an instant of the calendar").to_rfc3339()
}

/// Of two instants one is not after the other, and both only where they are the same; so many seconds
/// later is not before, and as much later as that.
pub proof fn law_instants_stand_in_order(a: Timestamp, b: Timestamp, seconds: int)
    requires
        can_wait(a, seconds),
    ensures
        a.not_after(b) || b.not_after(a),
        a.not_after(b) && b.not_after(a) ==> a == b,
        a.secs < b.secs ==> a.not_after(b) && !b.not_after(a),
        a.not_after(later(a, seconds)) == (seconds >= 0),
        later(a, seconds).secs - a.secs == seconds,
        later(a, seconds).nanos == a.nanos,
        more_than_ago(a, seconds, b) == !b.not_after(later(a, seconds)),
{
}

/// The time between two instants is that of their seconds and nanoseconds where neither stands within
/// a leap second; it has the other sign the other way round, and whole days are those that have
/// passed.
pub proof fn law_time_passes_both_ways(a: Timestamp, b: Timestamp)
    requires
        a.nanos < 1_000_000_000,
        b.nanos < 1_000_000_000,
    ensures
        elapsed_nanos(a, b) == (a.secs - b.secs) * 1_000_000_000 + (a.nanos - b.nanos),
        elapsed_nanos(a, b) == -elapsed_nanos(b, a),
        elapsed_nanos(a, b) >= 0 ==> whole_days(a, b) * 86_400_000_000_000 <= elapsed_nanos(a, b) < (whole_days(a, b)
            + 1) * 86_400_000_000_000,
        elapsed_nanos(a, b) < 0 ==> whole_days(a, b) == -whole_days(b, a),
{
}

/// The time from one instant to another is that from the other to the one with the other sign, leap
/// seconds or not; an instant within a leap second lies a second further from those later in its day.
pub proof fn law_leap_seconds_count_from_both_sides(a: Timestamp, b: Timestamp)
    ensures
        elapsed_nanos(a, b) == -elapsed_nanos(b, a),
        a.secs as int % 86_400 > b.secs as int % 86_400 && b.nanos >= 1_000_000_000 ==> elapsed_nanos(a, b) == (a.secs
            - b.secs + 1) * 1_000_000_000 + (a.nanos - b.nanos),
        a.secs as int % 86_400 == b.secs as int % 86_400 || (a.nanos < 1_000_000_000 && b.nanos < 1_000_000_000)
            ==> elapsed_nanos(a, b) == (a.secs - b.secs) * 1_000_000_000 + (a.nanos - b.nanos),
{
}

} // verus!
