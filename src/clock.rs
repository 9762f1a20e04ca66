//! Dates and times as the mount reports and accepts them.

use crate::error::{outcome, Fault, MountError};
use chrono::{Datelike, TimeZone, Timelike};
use vstd::prelude::*;

verus! {

/// A calendar date and time of day in UTC.
#[derive(Debug, Clone, Copy, PartialEq, Eq, Structural)]
pub struct UtcDateTime {
    pub year: i32,
    pub month: u8,
    pub day: u8,
    pub hour: u8,
    pub minute: u8,
    pub second: u8,
}

/// Years the mount's clock reports are offset from this one.
pub const CENTURY: i32 = 2000;

pub open spec fn is_leap_year(y: int) -> bool {
    (y % 4 == 0 && y % 100 != 0) || y % 400 == 0
}

pub open spec fn days_in_month(y: int, m: int) -> int {
    if m == 2 {
        if is_leap_year(y) {
            29
        } else {
            28
        }
    } else if m == 4 || m == 6 || m == 9 || m == 11 {
        30
    } else {
        31
    }
}

/// The fields name an existing day of the proleptic Gregorian calendar and a
/// time of day without leap second.
pub open spec fn valid_civil(y: int, mo: int, d: int, h: int, mi: int, s: int) -> bool {
    &&& 1 <= mo <= 12
    &&& 1 <= d <= days_in_month(y, mo)
    &&& 0 <= h < 24
    &&& 0 <= mi < 60
    &&& 0 <= s < 60
}

/// The instant, in UTC, of a local date and time at a UTC offset written as
/// `±hhmm`, or `None` where those do not form a valid timestamp.
pub uninterp spec fn local_time_utc(
    year: int,
    month: int,
    day: int,
    hour: int,
    minute: int,
    second: int,
    offset_hhmm: int,
) -> Option<UtcDateTime>;

/// Relies on chrono's `TimeZone::with_ymd_and_hms` for `Utc`: it yields one
/// instant, with the fields given, exactly when `NaiveDate::from_ymd_opt` and
/// `and_hms_opt` accept them; years up to 65535 lie inside chrono's range.
#[verifier::external_body]
fn utc_from_fields(year: u16, month: u8, day: u8, hour: u8, minute: u8, second: u8) -> (r: Option<UtcDateTime>)
    ensures
        r == (if valid_civil(year as int, month as int, day as int, hour as int, minute as int, second as int) {
            Some(UtcDateTime { year: year as i32, month, day, hour, minute, second })
        } else {
            None
        }),
{
    let t = chrono::Utc.with_ymd_and_hms(
        year as i32, month as u32, day as u32, hour as u32, minute as u32, second as u32,
    ).single()?;
    Some(UtcDateTime {
        year: t.year(), month: t.month() as u8, day: t.day() as u8,
        hour: t.hour() as u8, minute: t.minute() as u8, second: t.second() as u8,
    })
}

/// Relies on chrono's `DateTime::parse_from_str` with the format
/// `%Y-%m-%d %H:%M:%S %z`, then `with_timezone(&Utc)`: the instant depends on
/// the fields and the offset alone.
#[verifier::external_body]
fn parse_local_time(
    year: i32,
    month: u8,
    day: u8,
    hour: u8,
    minute: u8,
    second: u8,
    offset_hhmm: i32,
) -> (r: Option<UtcDateTime>)
    ensures
        r == local_time_utc(year as int, month as int, day as int, hour as int, minute as int, second as int, offset_hhmm as int),
{
    let text = format!("{year}-{month}-{day} {hour}:{minute}:{second} {offset_hhmm:+05}");
    let t = chrono::DateTime::parse_from_str(&text, "%Y-%m-%d %H:%M:%S %z").ok()?;
    let t = t.with_timezone(&chrono::Utc);
    Some(UtcDateTime {
        year: t.year(), month: t.month() as u8, day: t.day() as u8,
        hour: t.hour() as u8, minute: t.minute() as u8, second: t.second() as u8,
    })
}

/// A byte read as a two's-complement signed number.
pub open spec fn signed_byte(b: u8) -> int {
    if b < 128 {
        b as int
    } else {
        b - 256
    }
}

/// The UTC offset, as `±hhmm`, that the mount's offset and daylight bytes
/// stand for: one hour is added unless the daylight byte is 1.
pub open spec fn offset_hhmm_of(offset_byte: u8, dst_flag: u8) -> int {
    (signed_byte(offset_byte) + if dst_flag == 1 { 0int } else { 1int }) * 100
}

/// What the mount's eight time bytes (hour, minute, second, month, day, year
/// since 2000, UTC offset, daylight flag) stand for.
pub open spec fn mount_time_of(data: Seq<u8>) -> Result<UtcDateTime, Fault> {
    if data.len() != 8 {
        Err(Fault::UnexpectedResponseLength)
    } else {
        match local_time_utc(
            data[5] + CENTURY,
            data[3] as int,
            data[4] as int,
            data[0] as int,
            data[1] as int,
            data[2] as int,
            offset_hhmm_of(data[6], data[7]),
        ) {
            Some(t) => Ok(t),
            None => Err(Fault::InvalidDateTime),
        }
    }
}

/// What the real-time clock's fields stand for: month and day, the year as
/// two big-endian bytes, then hour, minute and second.
pub open spec fn rtc_time_of(month: u8, day: u8, year: u16, hms: Seq<u8>) -> Result<UtcDateTime, Fault> {
    if valid_civil(year as int, month as int, day as int, hms[0] as int, hms[1] as int, hms[2] as int) {
        Ok(UtcDateTime { year: year as i32, month, day, hour: hms[0], minute: hms[1], second: hms[2] })
    } else {
        Err(Fault::InvalidDateTime)
    }
}

/// The UTC offset, as `±hhmm`, that the mount's offset and daylight bytes
/// stand for.
pub fn utc_offset(offset_byte: u8, dst_flag: u8) -> (r: i32)
    ensures
        r == offset_hhmm_of(offset_byte, dst_flag),
{
    let hours: i32 = if offset_byte < 128 { offset_byte as i32 } else { offset_byte as i32 - 256 };
    let daylight: i32 = if dst_flag == 1 { 0 } else { 1 };
    (hours + daylight) * 100
}

/// Turns the mount's eight time bytes into an instant in UTC.
pub fn mount_time(data: &[u8]) -> (r: Result<UtcDateTime, MountError>)
    ensures
        outcome(r) == mount_time_of(data@),
{
    if data.len() != 8 {
        return Err(MountError::UnexpectedResponseLength);
    }
    let offset_hhmm = utc_offset(data[6], data[7]);
    match parse_local_time(data[5] as i32 + CENTURY, data[3], data[4], data[0], data[1], data[2], offset_hhmm) {
        Some(t) => Ok(t),
        None => Err(MountError::InvalidDateTime),
    }
}

/// Builds the instant the real-time clock's fields describe; fields that name
/// no valid date or time are an error.
pub fn rtc_time(month: u8, day: u8, year: u16, hour: u8, minute: u8, second: u8) -> (r: Result<UtcDateTime, MountError>)
    ensures
        outcome(r) == rtc_time_of(month, day, year, seq![hour, minute, second]),
{
    match utc_from_fields(year, month, day, hour, minute, second) {
        Some(t) => Ok(t),
        None => Err(MountError::InvalidDateTime),
    }
}

} // verus!
