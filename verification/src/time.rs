//! Calendar dates and timestamps in UTC, at whole-second precision.
//!
//! Every event the daemon records is stamped with a [`UtcDateTime`]; the
//! journal rotates on the UTC calendar date, [`UtcDate`].

use vstd::prelude::*;

verus! {

/// A calendar date in UTC (proleptic Gregorian calendar).
#[derive(Clone, Copy, Debug, PartialEq, Eq, Structural)]
pub struct UtcDate {
    pub year: i32,
    pub month: u8,
    pub day: u8,
}

/// A date and time of day in UTC, at whole-second precision.
#[derive(Clone, Copy, Debug, PartialEq, Eq, Structural)]
pub struct UtcDateTime {
    pub year: i32,
    pub month: u8,
    pub day: u8,
    pub hour: u8,
    pub minute: u8,
    pub second: u8,
}

pub open spec fn is_leap_year(y: int) -> bool {
    (y % 4 == 0 && y % 100 != 0) || y % 400 == 0
}

pub open spec fn days_in_month(y: int, m: int) -> int {
    if m == 2 {
        if is_leap_year(y) {
            29
        } else {
            28
        }
    } else if m == 4 || m == 6 || m == 9 || m == 11 {
        30
    } else {
        31
    }
}

impl UtcDate {
    /// A real calendar date whose year has at most four decimal digits.
    pub open spec fn wf(self) -> bool {
        &&& 0 <= self.year <= 9999
        &&& 1 <= self.month <= 12
        &&& 1 <= self.day <= days_in_month(self.year as int, self.month as int)
    }

    /// Runtime check for [`UtcDate::wf`].
    pub fn is_wf(&self) -> (b: bool)
        ensures
            b == self.wf(),
    {
        0 <= self.year && self.year <= 9999 && 1 <= self.month && self.month <= 12 && 1 <= self.day
            && self.day as u32 <= days_in_month_exec(self.year, self.month) as u32
    }
}

/// Number of days of month `m` (1-12) in year `y` of the Gregorian calendar.
pub fn days_in_month_exec(y: i32, m: u8) -> (d: u8)
    requires
        1 <= m <= 12,
    ensures
        d as int == days_in_month(y as int, m as int),
{
    if m == 2 {
        if (y % 4 == 0 && y % 100 != 0) || y % 400 == 0 {
            29
        } else {
            28
        }
    } else if m == 4 || m == 6 || m == 9 || m == 11 {
        30
    } else {
        31
    }
}

impl UtcDateTime {
    /// The calendar date part of this timestamp.
    pub open spec fn date_spec(self) -> UtcDate {
        UtcDate { year: self.year, month: self.month, day: self.day }
    }

    /// The calendar date part of this timestamp.
    pub fn date(&self) -> (d: UtcDate)
        ensures
            d == self.date_spec(),
    {
        UtcDate { year: self.year, month: self.month, day: self.day }
    }

    /// What every clock reading satisfies: a real calendar date and a time of
    /// day in range.  The year is unconstrained.
    pub open spec fn in_bounds(self) -> bool {
        &&& 1 <= self.month <= 12
        &&& 1 <= self.day <= days_in_month(self.year as int, self.month as int)
        &&& self.hour < 24
        &&& self.minute < 60
        &&& self.second < 60
    }

    /// [`UtcDateTime::in_bounds`] with the year limited to four decimal
    /// digits, as the journal's file names and timestamps require.
    pub open spec fn wf(self) -> bool {
        self.in_bounds() && 0 <= self.year <= 9999
    }

    /// Runtime check for [`UtcDateTime::wf`].
    pub fn is_wf(&self) -> (b: bool)
        ensures
            b == self.wf(),
    {
        1 <= self.month && self.month <= 12 && 1 <= self.day && self.day as u32
            <= days_in_month_exec(self.year, self.month) as u32 && self.hour < 24 && self.minute
            < 60 && self.second < 60 && 0 <= self.year && self.year <= 9999
    }
}

/// The current time in UTC.
///
/// Relies on `chrono::Utc::now` and the `Datelike`/`Timelike` accessors:
/// the month is 1-12, the day is valid for the month, the hour is 0-23 and
/// the minute and second are 0-59.  Nothing is promised about which instant
/// comes back.
#[verifier::external_body]
pub fn now_utc() -> (t: UtcDateTime)
    ensures
        t.in_bounds(),
{
    let n = chrono::Utc::now();
    UtcDateTime {
        year: chrono::Datelike::year(&n),
        month: chrono::Datelike::month(&n) as u8,
        day: chrono::Datelike::day(&n) as u8,
        hour: chrono::Timelike::hour(&n) as u8,
        minute: chrono::Timelike::minute(&n) as u8,
        second: chrono::Timelike::second(&n) as u8,
    }
}

} // verus!
