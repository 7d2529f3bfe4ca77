//! Dates and times as the server sends them, and as `chrono` holds them.

use chrono::NaiveDate;
use chrono::NaiveDateTime;
use chrono::NaiveTime;
use vstd::prelude::*;

verus! {

pub type Year = i16;

pub type Month = i8;

pub type Day = i8;

pub type Hour = i8;

pub type Minute = i8;

pub type Second = i8;

pub type Millisec = i16;

pub type Microsec = i16;

#[verifier::external_type_specification]
#[verifier::external_body]
pub struct ExNaiveDate(NaiveDate);

#[verifier::external_type_specification]
#[verifier::external_body]
pub struct ExNaiveTime(NaiveTime);

#[verifier::external_type_specification]
#[verifier::external_body]
pub struct ExNaiveDateTime(NaiveDateTime);

/// Is `year` a leap year of the proleptic Gregorian calendar?
pub open spec fn is_leap_year(year: int) -> bool {
    year % 4 == 0 && (year % 100 != 0 || year % 400 == 0)
}

/// The number of days of a month.
pub open spec fn days_in_month(year: int, month: int) -> int {
    if month == 2 {
        if is_leap_year(year) {
            29
        } else {
            28
        }
    } else if month == 4 || month == 6 || month == 9 || month == 11 {
        30
    } else {
        31
    }
}

/// Is there such a day in the calendar, in a year that `chrono` can hold?
pub open spec fn valid_date(year: int, month: int, day: int) -> bool {
    &&& -262143 <= year <= 262142
    &&& 1 <= month <= 12
    &&& 1 <= day <= days_in_month(year, month)
}

/// Is there such a time of day? The millisecond may run into a second thousand to
/// stand for a leap second, in the last second of a minute only.
pub open spec fn valid_time(hour: int, minute: int, second: int, milli: int) -> bool {
    &&& 0 <= hour < 24
    &&& 0 <= minute < 60
    &&& 0 <= second < 60
    &&& 0 <= milli < 2000
    &&& milli >= 1000 ==> second == 59
}

/// The date that `chrono` makes of a valid year, month and day.
pub uninterp spec fn date_of(year: i32, month: u32, day: u32) -> NaiveDate;

/// The time that `chrono` makes of a valid hour, minute, second and millisecond.
pub uninterp spec fn time_of(hour: u32, minute: u32, second: u32, milli: u32) -> NaiveTime;

/// The date and time that `chrono` makes of a date and a time.
pub uninterp spec fn date_time_of(date: NaiveDate, time: NaiveTime) -> NaiveDateTime;

/// The date and time that `chrono` makes of a number of seconds since the start of
/// 1970, where it can hold that moment.
pub uninterp spec fn date_time_at(seconds: i64) -> Option<NaiveDateTime>;

/// Calls `NaiveDate::from_ymd_opt`, which gives a date exactly for the days that the
/// calendar has, in the years that `chrono` can hold.
#[verifier::external_body]
fn date_from_ymd(year: i32, month: u32, day: u32) -> (date: Option<NaiveDate>)
    ensures
        date is Some <==> valid_date(year as int, month as int, day as int),
        date matches Some(made) ==> made == date_of(year, month, day),
{
    NaiveDate::from_ymd_opt(year, month, day)
}

/// Calls `NaiveTime::from_hms_milli_opt`, which gives a time exactly for a valid hour,
/// minute, second and millisecond.
#[verifier::external_body]
fn time_from_hms_milli(hour: u32, minute: u32, second: u32, milli: u32) -> (time: Option<
    NaiveTime,
>)
    ensures
        time is Some <==> valid_time(hour as int, minute as int, second as int, milli as int),
        time matches Some(made) ==> made == time_of(hour, minute, second, milli),
{
    NaiveTime::from_hms_milli_opt(hour, minute, second, milli)
}

/// Calls `NaiveDateTime::new`.
#[verifier::external_body]
fn date_time_new(date: NaiveDate, time: NaiveTime) -> (moment: NaiveDateTime)
    ensures
        moment == date_time_of(date, time),
{
    NaiveDateTime::new(date, time)
}

/// Calls `NaiveDateTime::from_timestamp_opt` with no nanoseconds.
#[verifier::external_body]
fn date_time_from_timestamp(seconds: i64) -> (moment: Option<NaiveDateTime>)
    ensures
        moment == date_time_at(seconds),
{
    #[allow(deprecated)]
    NaiveDateTime::from_timestamp_opt(seconds, 0)
}

/// Seconds since the start of 1970.
#[derive(PartialEq, Eq, Structural, Debug)]
pub struct Timestamp(pub i64);

impl Timestamp {
    /// The moment that lies this many seconds after the start of 1970, where `chrono`
    /// can hold it.
    pub fn try_to_naive_date_time(&self) -> (moment: Option<NaiveDateTime>)
        ensures
            moment == date_time_at(self.0),
    {
        match date_time_from_timestamp(self.0) {
            Some(_) => Some(self.to_naive_date_time()),
            None => None,
        }
    }

    /// The moment that lies this many seconds after the start of 1970, which `chrono`
    /// has to be able to hold.
    pub fn to_naive_date_time(&self) -> (moment: NaiveDateTime)
        requires
            date_time_at(self.0) is Some,
        ensures
            Some(moment) == date_time_at(self.0),
    {
        date_time_from_timestamp(self.0).unwrap()
    }
}

/// A year and a month of it.
#[derive(PartialEq, Eq, Structural, Debug)]
pub struct YearMonth(pub Year, pub Month);

impl YearMonth {
    /// The first day of the month, which has to be one of the twelve.
    pub fn to_naive_date(&self) -> (date: NaiveDate)
        requires
            valid_date(self.0 as int, self.1 as int, 1),
        ensures
            date == date_of(self.0 as i32, self.1 as u32, 1),
    {
        date_from_ymd(self.0 as i32, self.1 as u32, 1).unwrap()
    }
}

/// A calendar day.
#[derive(PartialEq, Eq, Structural, Debug)]
pub struct Date(pub Year, pub Month, pub Day);

impl Date {
    /// This day, which the calendar has to have.
    pub fn to_naive_date(&self) -> (date: NaiveDate)
        requires
            valid_date(self.0 as int, self.1 as int, self.2 as int),
        ensures
            date == date_of(self.0 as i32, self.1 as u32, self.2 as u32),
    {
        date_from_ymd(self.0 as i32, self.1 as u32, self.2 as u32).unwrap()
    }
}

/// A time of day, to the millisecond.
#[derive(PartialEq, Eq, Structural, Debug)]
pub struct Time(pub Hour, pub Minute, pub Second, pub Millisec);

impl Time {
    /// This time, which has to be valid, on the first day of 1970.
    pub fn to_naive_date_time(&self) -> (moment: NaiveDateTime)
        requires
            valid_time(self.0 as int, self.1 as int, self.2 as int, self.3 as int),
        ensures
            moment == date_time_of(
                date_of(1970, 1, 1),
                time_of(self.0 as u32, self.1 as u32, self.2 as u32, self.3 as u32),
            ),
    {
        let d = date_from_ymd(1970, 1, 1).unwrap();
        let t = time_from_hms_milli(
            self.0 as u32,
            self.1 as u32,
            self.2 as u32,
            self.3 as u32,
        ).unwrap();
        date_time_new(d, t)
    }
}

/// A calendar day and a time of it, to the microsecond.
#[derive(PartialEq, Eq, Structural, Debug)]
pub struct DateTime(
    pub Year,
    pub Month,
    pub Day,
    pub Hour,
    pub Minute,
    pub Second,
    pub Millisec,
    pub Microsec,
);

impl DateTime {
    /// This day and time, to the millisecond. Both have to be valid.
    pub fn to_naive_date_time(&self) -> (moment: NaiveDateTime)
        requires
            valid_date(self.0 as int, self.1 as int, self.2 as int),
            valid_time(self.3 as int, self.4 as int, self.5 as int, self.6 as int),
        ensures
            moment == date_time_of(
                date_of(self.0 as i32, self.1 as u32, self.2 as u32),
                time_of(self.3 as u32, self.4 as u32, self.5 as u32, self.6 as u32),
            ),
    {
        let d = date_from_ymd(self.0 as i32, self.1 as u32, self.2 as u32).unwrap();
        let t = time_from_hms_milli(
            self.3 as u32,
            self.4 as u32,
            self.5 as u32,
            self.6 as u32,
        ).unwrap();
        date_time_new(d, t)
    }
}

} // verus!
