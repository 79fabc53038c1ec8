use vstd::prelude::*;

use chrono::{Datelike, TimeZone, Timelike};

verus! {

/// The earliest year that the calendar of the time library represents.
pub const MIN_YEAR: i32 = -262143;

/// The latest year that the calendar of the time library represents.
pub const MAX_YEAR: i32 = 262142;

/// The largest distance from the epoch, in seconds, whose local time is
/// computed: about 253,000 years, well inside the time library's calendar even
/// after a time zone's offset is applied.
pub const TIME_LIMIT: i64 = 8_000_000_000_000;

/// A moment of the local calendar, to the minute.
#[derive(Clone, Copy, Debug, PartialEq, Eq, Structural)]
pub struct LocalTime {
    pub year: i32,
    pub month: u32,
    pub day: u32,
    pub hour: u32,
    pub minute: u32,
}

pub open spec fn is_leap_year(y: int) -> bool {
    (y % 4 == 0 && y % 100 != 0) || y % 400 == 0
}

pub open spec fn days_in_month(y: int, m: int) -> int {
    if m == 2 {
        if is_leap_year(y) {
            29
        } else {
            28
        }
    } else if m == 4 || m == 6 || m == 9 || m == 11 {
        30
    } else {
        31
    }
}

/// The English three-letter abbreviation of a month, `Jan` for 1.
pub open spec fn month_abbrev(m: int) -> Seq<char> {
    if m == 1 {
        seq!['J', 'a', 'n']
    } else if m == 2 {
        seq!['F', 'e', 'b']
    } else if m == 3 {
        seq!['M', 'a', 'r']
    } else if m == 4 {
        seq!['A', 'p', 'r']
    } else if m == 5 {
        seq!['M', 'a', 'y']
    } else if m == 6 {
        seq!['J', 'u', 'n']
    } else if m == 7 {
        seq!['J', 'u', 'l']
    } else if m == 8 {
        seq!['A', 'u', 'g']
    } else if m == 9 {
        seq!['S', 'e', 'p']
    } else if m == 10 {
        seq!['O', 'c', 't']
    } else if m == 11 {
        seq!['N', 'o', 'v']
    } else {
        seq!['D', 'e', 'c']
    }
}

/// `n` as two decimal digits, for `n` below 100.
pub open spec fn two_digits(n: int) -> Seq<char> {
    seq![crate::text::digit_char((n / 10) as nat), crate::text::digit_char((n % 10) as nat)]
}

/// The timestamp column: abbreviated month, two-digit day, and the 24-hour
/// time as `HH:MM`, as in `Jan 05 14:32`.
pub open spec fn stamp_text(t: LocalTime) -> Seq<char> {
    month_abbrev(t.month as int) + seq![' '] + two_digits(t.day as int) + seq![' ']
        + two_digits(t.hour as int) + seq![':'] + two_digits(t.minute as int)
}

impl LocalTime {
    /// A real date of the supported calendar and a time of day.
    pub open spec fn wf(self) -> bool {
        &&& MIN_YEAR <= self.year <= MAX_YEAR
        &&& 1 <= self.month <= 12
        &&& 1 <= self.day <= days_in_month(self.year as int, self.month as int)
        &&& self.hour < 24
        &&& self.minute < 60
    }
}

/// Whole seconds since the Unix epoch, rounded down, of a moment given as a
/// distance from the epoch and its side.
pub open spec fn epoch_floor(before_epoch: bool, secs: nat, nanos: nat) -> int {
    if !before_epoch {
        secs as int
    } else if nanos == 0 {
        -(secs as int)
    } else {
        -(secs as int) - 1
    }
}

/// Relies on `chrono::Utc::timestamp_opt` and `DateTime::with_timezone(&Local)`
/// with the `Datelike` and `Timelike` getters: the local calendar date and time
/// of `secs` seconds after the epoch. Within `TIME_LIMIT` the timestamp is always
/// representable and the change of zone cannot fail. The offset comes from the machine's time
/// zone, so only the validity of the date and time is promised.
#[verifier::external_body]
fn local_time_of(secs: i64) -> (r: Option<LocalTime>)
    requires
        -TIME_LIMIT <= secs <= TIME_LIMIT,
    ensures
        r is Some,
        r matches Some(t) ==> t.wf(),
{
    match chrono::Utc.timestamp_opt(secs, 0).single() {
        Some(utc) => {
            let t = utc.with_timezone(&chrono::Local);
            Some(LocalTime { year: t.year(), month: t.month(), day: t.day(), hour: t.hour(), minute: t.minute() })
        },
        None => None,
    }
}

/// Relies on `chrono::NaiveDate::from_ymd_opt`, `and_hms_opt` and `format`
/// with `%b %d %H:%M`: the abbreviated English month name, the zero-padded day,
/// hour and minute. A valid date and time is always accepted.
#[verifier::external_body]
pub(crate) fn format_stamp(t: &LocalTime) -> (r: String)
    requires
        t.wf(),
    ensures
        r@ == stamp_text(*t),
{
    let date = chrono::NaiveDate::from_ymd_opt(t.year, t.month, t.day);
    let time = chrono::NaiveTime::from_hms_opt(t.hour, t.minute, 0);
    match (date, time) {
        (Some(d), Some(tm)) => d.and_time(tm).format("%b %d %H:%M").to_string(),
        _ => String::new(),
    }
}

/// The local time of a modification moment, given as its distance from the
/// epoch (`secs` and `nanos`) and whether it lies before it. `None` when the
/// moment lies more than `TIME_LIMIT` seconds from the epoch.
pub fn modified_time(before_epoch: bool, secs: u64, nanos: u32) -> (r: Option<LocalTime>)
    requires
        nanos < 1_000_000_000,
    ensures
        r matches Some(t) ==> t.wf(),
        epoch_floor(before_epoch, secs as nat, nanos as nat) < -TIME_LIMIT ==> r is None,
        epoch_floor(before_epoch, secs as nat, nanos as nat) > TIME_LIMIT ==> r is None,
        -TIME_LIMIT <= epoch_floor(before_epoch, secs as nat, nanos as nat) <= TIME_LIMIT
            ==> r is Some,
{
    if secs > TIME_LIMIT as u64 {
        return None;
    }
    let s = secs as i64;
    let floor: i64 = if !before_epoch {
        s
    } else if nanos == 0 {
        -s
    } else {
        -s - 1
    };
    assert(floor == epoch_floor(before_epoch, secs as nat, nanos as nat));
    if floor < -TIME_LIMIT || floor > TIME_LIMIT {
        return None;
    }
    local_time_of(floor)
}

} // verus!
