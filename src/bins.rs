//! Splitting a millisecond count into unit bins.
use vstd::prelude::*;

verus! {

/// Average length of a year (365.2425 days), in milliseconds.
pub const YEAR_MS: u128 = 31556926000;

/// Average length of a month (30.4375 days), in milliseconds.
pub const MONTH_MS: u128 = 2629800000;

pub const DAY_MS: u128 = 86400000;

pub const HOUR_MS: u128 = 3600000;

pub const MINUTE_MS: u128 = 60000;

pub const SECOND_MS: u128 = 1000;

/// How much of a duration falls into each unit.
///
/// Years, months and days are each the whole number of that unit in the
/// total duration, so their magnitudes overlap: this is a display of several
/// granularities, not a calendar breakdown. They are kept in narrow fields
/// and wrap around past their range (a year of 365 days shows 109 days).
/// Hours, minutes, seconds and milliseconds are positions within a day.
#[derive(Copy, Clone, Debug, PartialEq, Eq)]
pub struct DurationBins {
    pub years: u16,
    pub months: u8,
    pub days: u8,
    pub hours: u8,
    pub minutes: u8,
    pub seconds: u8,
    pub milliseconds: u16,
}

impl DurationBins {
    /// The seven counts, from years down to milliseconds.
    pub open spec fn values(&self) -> Seq<nat> {
        seq![
            self.years as nat,
            self.months as nat,
            self.days as nat,
            self.hours as nat,
            self.minutes as nat,
            self.seconds as nat,
            self.milliseconds as nat,
        ]
    }
}

/// The seven counts of a duration of `ms` milliseconds, from years down to
/// milliseconds, each reduced to the range of its field.
pub open spec fn bin_values(ms: nat) -> Seq<nat> {
    seq![
        (ms / (YEAR_MS as nat)) % 0x1_0000,
        (ms / (MONTH_MS as nat)) % 0x100,
        (ms / (DAY_MS as nat)) % 0x100,
        (ms / (HOUR_MS as nat)) % 24,
        (ms / (MINUTE_MS as nat)) % 60,
        (ms / (SECOND_MS as nat)) % 60,
        ms % 1000,
    ]
}

/// Splits a duration of `ms` milliseconds into unit bins.
pub fn extract_bins(ms: &u128) -> (r: DurationBins)
    ensures
        r.years == (*ms / YEAR_MS) % 0x1_0000,
        r.months == (*ms / MONTH_MS) % 0x100,
        r.days == (*ms / DAY_MS) % 0x100,
        r.hours == (*ms / HOUR_MS) % 24,
        r.minutes == (*ms / MINUTE_MS) % 60,
        r.seconds == (*ms / SECOND_MS) % 60,
        r.milliseconds == *ms % 1000,
        r.hours < 24,
        r.minutes < 60,
        r.seconds < 60,
        r.milliseconds < 1000,
        r.values() == bin_values(*ms as nat),
{
    let ms: u128 = *ms;
    let r = DurationBins {
        years: ((ms / YEAR_MS) % 0x1_0000) as u16,
        months: ((ms / MONTH_MS) % 0x100) as u8,
        days: ((ms / DAY_MS) % 0x100) as u8,
        hours: ((ms / HOUR_MS) % 24) as u8,
        minutes: ((ms / MINUTE_MS) % 60) as u8,
        seconds: ((ms / SECOND_MS) % 60) as u8,
        milliseconds: (ms % 1000) as u16,
    };
    assert(r.values() =~= bin_values(ms as nat));
    r
}

} // verus!
