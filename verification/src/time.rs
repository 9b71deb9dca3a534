//! Calendar time as FAT stamps it on directory entries.
//!
//! The arithmetic is that of the `embedded-sdmmc` crate, which is called for
//! it; the two calls are the only code of this crate that Verus takes on
//! trust.

use vstd::prelude::*;

verus! {

/// A point in time, in local time, with the fields counted as
/// `embedded-sdmmc` counts them.
#[derive(Clone, Copy, Debug, PartialEq, Eq, Structural)]
pub struct Timestamp {
    /// The calendar year less 1970.
    pub year_since_1970: u8,
    /// The calendar month less one.
    pub zero_indexed_month: u8,
    /// The day of the month less one.
    pub zero_indexed_day: u8,
    pub hours: u8,
    pub minutes: u8,
    pub seconds: u8,
}

/// Whether the six numbers name a time that a `Timestamp` can hold.
pub open spec fn calendar_valid(
    year: u16,
    month: u8,
    day: u8,
    hours: u8,
    minutes: u8,
    seconds: u8,
) -> bool {
    &&& 1970 <= year <= 1970 + 255
    &&& 1 <= month <= 12
    &&& 1 <= day <= 31
    &&& hours <= 23
    &&& minutes <= 59
    &&& seconds <= 59
}

/// The timestamp of a valid calendar time.
pub open spec fn calendar_timestamp(
    year: u16,
    month: u8,
    day: u8,
    hours: u8,
    minutes: u8,
    seconds: u8,
) -> Timestamp {
    Timestamp {
        year_since_1970: (year - 1970) as u8,
        zero_indexed_month: (month - 1) as u8,
        zero_indexed_day: (day - 1) as u8,
        hours,
        minutes,
        seconds,
    }
}

/// The timestamp held in the date and time words of a directory entry. The
/// date has the year since 1980 in its top seven bits, then four bits of
/// month and five of day; the time has five bits of hours, six of minutes
/// and five of seconds halved. A month or day of zero, as volume labels have
/// it, is read as the first. Nothing is checked for range.
pub open spec fn fat_timestamp(date: u16, time: u16) -> Timestamp {
    let month = (date / 32) % 16;
    let day = date % 32;
    Timestamp {
        year_since_1970: (date / 512 + 10) as u8,
        zero_indexed_month: if month == 0 {
            0
        } else {
            (month - 1) as u8
        },
        zero_indexed_day: if day == 0 {
            0
        } else {
            (day - 1) as u8
        },
        hours: (time / 2048) as u8,
        minutes: ((time / 32) % 64) as u8,
        seconds: (2 * (time % 32)) as u8,
    }
}

/// Calls `embedded_sdmmc::Timestamp::from_calendar`. Trusted: it succeeds
/// exactly on a year from 1970 to 2225, a month from 1 to 12, a day from 1 to
/// 31, and hours, minutes and seconds within a day, and then returns the
/// fields with year, month and day counted from 1970, zero and zero.
#[verifier::external_body]
fn sdmmc_from_calendar(year: u16, month: u8, day: u8, hours: u8, minutes: u8, seconds: u8) -> (r:
    Option<Timestamp>)
    ensures
        r is Some <==> calendar_valid(year, month, day, hours, minutes, seconds),
        r matches Some(t) ==> t == calendar_timestamp(year, month, day, hours, minutes, seconds),
{
    match embedded_sdmmc::Timestamp::from_calendar(year, month, day, hours, minutes, seconds) {
        Ok(t) => Some(
            Timestamp {
                year_since_1970: t.year_since_1970,
                zero_indexed_month: t.zero_indexed_month,
                zero_indexed_day: t.zero_indexed_day,
                hours: t.hours,
                minutes: t.minutes,
                seconds: t.seconds,
            },
        ),
        Err(_) => None,
    }
}

/// Calls `embedded_sdmmc::Timestamp::from_fat`. Trusted: it never fails and
/// splits the two words into the fields as `fat_timestamp` says.
#[verifier::external_body]
fn sdmmc_from_fat(date: u16, time: u16) -> (t: Timestamp)
    ensures
        t == fat_timestamp(date, time),
{
    let t = embedded_sdmmc::Timestamp::from_fat(date, time);
    Timestamp {
        year_since_1970: t.year_since_1970,
        zero_indexed_month: t.zero_indexed_month,
        zero_indexed_day: t.zero_indexed_day,
        hours: t.hours,
        minutes: t.minutes,
        seconds: t.seconds,
    }
}

impl Timestamp {
    /// Whether every field lies within its calendar range.
    pub open spec fn in_range(self) -> bool {
        &&& self.zero_indexed_month < 12
        &&& self.zero_indexed_day < 31
        &&& self.hours < 24
        &&& self.minutes < 60
        &&& self.seconds < 60
    }

    /// The timestamp of a calendar time written as one reads it: 1980, 1, 1,
    /// 13, 30, 5 is the first of January 1980 at 13:30:05. `None` where a
    /// number is out of range.
    pub fn from_calendar(year: u16, month: u8, day: u8, hours: u8, minutes: u8, seconds: u8) -> (r:
        Option<Timestamp>)
        ensures
            r is Some <==> calendar_valid(year, month, day, hours, minutes, seconds),
            r matches Some(t) ==> t == calendar_timestamp(year, month, day, hours, minutes, seconds)
                && t.in_range(),
    {
        sdmmc_from_calendar(year, month, day, hours, minutes, seconds)
    }

    /// The timestamp held in the date and time words of a directory entry.
    pub fn from_fat(date: u16, time: u16) -> (t: Timestamp)
        ensures
            t == fat_timestamp(date, time),
            10 <= t.year_since_1970 <= 137,
    {
        sdmmc_from_fat(date, time)
    }
}

/// Something that knows what time it is. The host hands one in; the crate
/// asks it only when it has to stamp an entry.
pub trait TimeSource {
    fn get_timestamp(&self) -> Timestamp;
}

/// A time source that always gives the same time, for hosts without a clock.
#[derive(Clone, Copy, Debug, PartialEq, Eq, Structural)]
pub struct FixedTime {
    pub stamp: Timestamp,
}

impl FixedTime {
    /// A source fixed at a calendar time; `None` where a number is out of
    /// range.
    pub fn from_calendar(year: u16, month: u8, day: u8, hours: u8, minutes: u8, seconds: u8) -> (r:
        Option<FixedTime>)
        ensures
            r is Some <==> calendar_valid(year, month, day, hours, minutes, seconds),
            r matches Some(f) ==> f.stamp == calendar_timestamp(
                year,
                month,
                day,
                hours,
                minutes,
                seconds,
            ),
    {
        match Timestamp::from_calendar(year, month, day, hours, minutes, seconds) {
            Some(stamp) => Some(FixedTime { stamp }),
            None => None,
        }
    }
}

impl TimeSource for FixedTime {
    fn get_timestamp(&self) -> (t: Timestamp)
        ensures
            t == self.stamp,
    {
        self.stamp
    }
}

} // verus!
