//! The numbers behind times and dates.
//!
//! A timestamp travels as an `Int`: milliseconds since the Unix epoch, which
//! may be negative. A date travels as a `Date`: a number of days. Clocks and
//! calendars are not this library's; these functions give what their
//! constructors take and take what their accessors give, and refuse the
//! numbers that do not fit.
use crate::error::{ConversionError, Failure};
use chrono::NaiveDate;
use vstd::prelude::*;

verus! {

/// `chrono::NaiveDate`: a date of the proleptic Gregorian calendar. The
/// library makes dates and hands them on; it never looks inside.
#[verifier::external_type_specification]
#[verifier::external_body]
pub struct ExNaiveDate(NaiveDate);

/// The number of the first day of the calendar of `chrono`, January 1 of the
/// year 262144 BCE, where January 1 of the year 1 is day 1.
pub const FIRST_DAY: i32 = -95_746_129;

/// The number of the last day of the calendar of `chrono`, December 31 of the
/// year 262142.
pub const LAST_DAY: i32 = 95_745_399;

/// Whether the calendar of `chrono` has the day with the number `days`, where
/// January 1 of the year 1 is day 1.
pub open spec fn calendar_has_day(days: i32) -> bool {
    FIRST_DAY <= days <= LAST_DAY
}

/// `chrono::NaiveDate::from_num_days_from_ce_opt`: the date of a day's number,
/// or `None` where the number is out of the calendar's range, which is that
/// of the years from 262144 BCE to 262142. Nothing is claimed of the date.
#[verifier::external_body]
fn date_of_day(days: i32) -> (date: Option<NaiveDate>)
    ensures
        date is Some <==> calendar_has_day(days),
{
    NaiveDate::from_num_days_from_ce_opt(days)
}

/// The date of a number of days, as a `Date` value holds it. A number that
/// is beyond the last day of the calendar is out of range.
pub fn into_naive_date(days: u32) -> (r: Result<NaiveDate, ConversionError>)
    ensures
        r is Ok <==> days <= LAST_DAY,
        r matches Err(e) ==> e.kind@ == Failure::OutOfRange,
{
    let signed = match signed_days(days) {
        Ok(signed) => signed,
        Err(e) => {
            return Err(e);
        },
    };
    match date_of_day(signed) {
        Some(date) => Ok(date),
        None => Err(ConversionError::out_of_range(days, "NaiveDate")),
    }
}

/// Splits a timestamp in milliseconds into whole seconds, rounded down, and
/// the nanoseconds above them.
pub fn split_millis(millis: i64) -> (parts: (i64, u32))
    ensures
        parts.0 * 1000 + parts.1 / 1_000_000 == millis,
        parts.1 % 1_000_000 == 0,
        parts.1 < 1_000_000_000,
{
    if millis >= 0 {
        let whole: u64 = millis as u64;
        let seconds: u64 = whole / 1000;
        let rest: u64 = whole % 1000;
        (seconds as i64, (rest * 1_000_000) as u32)
    } else {
        let below: u64 = (-(millis + 1)) as u64;
        let seconds: u64 = below / 1000;
        let rest: u64 = 999 - below % 1000;
        (-(seconds as i64) - 1, (rest * 1_000_000) as u32)
    }
}

/// The milliseconds after the Unix epoch of a timestamp. A timestamp before
/// the epoch is out of range.
pub fn millis_since_epoch(timestamp: i64) -> (r: Result<u64, ConversionError>)
    ensures
        match r {
            Ok(millis) => timestamp >= 0 && millis == timestamp,
            Err(e) => timestamp < 0 && e.kind@ == Failure::OutOfRange,
        },
{
    if timestamp >= 0 {
        Ok(timestamp as u64)
    } else {
        Err(ConversionError::out_of_range(timestamp, "milliseconds since the epoch"))
    }
}

/// The timestamp of a number of milliseconds after the Unix epoch. More
/// milliseconds than a timestamp holds are out of range.
pub fn timestamp_of(millis: u128) -> (r: Result<i64, ConversionError>)
    ensures
        match r {
            Ok(timestamp) => millis <= i64::MAX && timestamp == millis,
            Err(e) => millis > i64::MAX && e.kind@ == Failure::OutOfRange,
        },
{
    if millis <= i64::MAX as u128 {
        Ok(millis as i64)
    } else {
        Err(ConversionError::out_of_range(millis, "timestamp"))
    }
}

/// The number of days of a date as a signed number, which calendars count
/// in. A number of days above the signed numbers is out of range.
pub fn signed_days(days: u32) -> (r: Result<i32, ConversionError>)
    ensures
        match r {
            Ok(signed) => days <= i32::MAX && signed == days,
            Err(e) => days > i32::MAX && e.kind@ == Failure::OutOfRange,
        },
{
    if days <= i32::MAX as u32 {
        Ok(days as i32)
    } else {
        Err(ConversionError::out_of_range(days, "days of a date"))
    }
}

/// The number of days of a date from the signed number that a calendar
/// gives. A negative number of days is out of range.
pub fn date_days(days: i32) -> (r: Result<u32, ConversionError>)
    ensures
        match r {
            Ok(unsigned) => days >= 0 && unsigned == days,
            Err(e) => days < 0 && e.kind@ == Failure::OutOfRange,
        },
{
    if days >= 0 {
        Ok(days as u32)
    } else {
        Err(ConversionError::out_of_range(days, "date"))
    }
}

} // verus!
