//! Civil time at a fixed offset from UTC.
//!
//! The calendar arithmetic is chrono's. What this module adds is the
//! statement of what that arithmetic yields for a fixed offset, and the facts
//! about hours and weekdays that follow from it.

use vstd::prelude::*;
use chrono::{DateTime, Datelike, FixedOffset, Timelike};

verus! {

/// The earliest instant, in seconds since the Unix epoch, that is converted.
pub const EARLIEST_INSTANT: i64 = -8_000_000_000_000;

/// The latest instant, in seconds since the Unix epoch, that is converted.
pub const LATEST_INSTANT: i64 = 8_000_000_000_000;

/// A day of the week.
#[derive(Clone, Copy, Debug, PartialEq, Eq, Structural)]
pub enum Weekday {
    Mon,
    Tue,
    Wed,
    Thu,
    Fri,
    Sat,
    Sun,
}

/// The fields of a civil time that a board row shows.
#[derive(Clone, Copy, Debug)]
pub struct LocalTime {
    pub is_pm: bool,
    pub hour12: u8,
    pub minute: u8,
    pub weekday: Weekday,
}

/// The instant lies in the span that is converted, some 250,000 years either
/// side of the epoch.
pub open spec fn instant_in_range(utc_seconds: i64) -> bool {
    EARLIEST_INSTANT <= utc_seconds <= LATEST_INSTANT
}

/// The offset is less than a day in either direction.
pub open spec fn offset_in_range(offset_seconds: i32) -> bool {
    -86_400 < offset_seconds < 86_400
}

/// The hour of the day, 0 to 23, at `local` seconds of local time since the
/// epoch.
pub open spec fn hour_at(local: int) -> int {
    (local % 86_400) / 3_600
}

/// The minute of the hour, 0 to 59.
pub open spec fn minute_at(local: int) -> int {
    ((local % 86_400) / 60) % 60
}

/// Whether the hour is in the second half of the day.
pub open spec fn is_pm_at(local: int) -> bool {
    hour_at(local) >= 12
}

/// The hour on a 12-hour dial, 1 to 12.
pub open spec fn hour12_at(local: int) -> int {
    if hour_at(local) % 12 == 0 {
        12
    } else {
        hour_at(local) % 12
    }
}

/// The day that is `n` days after a Monday, for `n` from 0 to 6.
pub open spec fn weekday_after_monday(n: int) -> Weekday {
    if n == 0 {
        Weekday::Mon
    } else if n == 1 {
        Weekday::Tue
    } else if n == 2 {
        Weekday::Wed
    } else if n == 3 {
        Weekday::Thu
    } else if n == 4 {
        Weekday::Fri
    } else if n == 5 {
        Weekday::Sat
    } else {
        Weekday::Sun
    }
}

/// The day of the week; the epoch fell on a Thursday.
pub open spec fn weekday_at(local: int) -> Weekday {
    weekday_after_monday((local / 86_400 + 3) % 7)
}

/// The civil time at `utc_seconds` in a zone `offset_seconds` east of UTC.
pub open spec fn local_time_at(utc_seconds: i64, offset_seconds: i32) -> LocalTime {
    let local = utc_seconds + offset_seconds;
    LocalTime {
        is_pm: is_pm_at(local),
        hour12: hour12_at(local) as u8,
        minute: minute_at(local) as u8,
        weekday: weekday_at(local),
    }
}

impl Weekday {
    /// The day that follows.
    pub open spec fn next(self) -> Weekday {
        match self {
            Weekday::Mon => Weekday::Tue,
            Weekday::Tue => Weekday::Wed,
            Weekday::Wed => Weekday::Thu,
            Weekday::Thu => Weekday::Fri,
            Weekday::Fri => Weekday::Sat,
            Weekday::Sat => Weekday::Sun,
            Weekday::Sun => Weekday::Mon,
        }
    }

    /// The three capital letters that stand for the day.
    pub open spec fn letters(self) -> Seq<char> {
        match self {
            Weekday::Mon => seq!['M', 'O', 'N'],
            Weekday::Tue => seq!['T', 'U', 'E'],
            Weekday::Wed => seq!['W', 'E', 'D'],
            Weekday::Thu => seq!['T', 'H', 'U'],
            Weekday::Fri => seq!['F', 'R', 'I'],
            Weekday::Sat => seq!['S', 'A', 'T'],
            Weekday::Sun => seq!['S', 'U', 'N'],
        }
    }

    /// The three capital letters that stand for the day.
    pub fn abbreviation(self) -> (text: Vec<char>)
        ensures
            text@ == self.letters(),
            text@.len() == 3,
    {
        let text: Vec<char> = match self {
            Weekday::Mon => vec!['M', 'O', 'N'],
            Weekday::Tue => vec!['T', 'U', 'E'],
            Weekday::Wed => vec!['W', 'E', 'D'],
            Weekday::Thu => vec!['T', 'H', 'U'],
            Weekday::Fri => vec!['F', 'R', 'I'],
            Weekday::Sat => vec!['S', 'A', 'T'],
            Weekday::Sun => vec!['S', 'U', 'N'],
        };
        assert(text@ =~= self.letters());
        text
    }
}

/// Calls chrono's `Timelike::hour12` on the instant seen from the zone.
///
/// Claimed of chrono: a `DateTime` built from a Unix timestamp and moved to
/// a `FixedOffset` reads the hour of `utc + offset` seconds, counted in days
/// of 86,400 seconds, and `hour12` folds that hour into 1..=12 with a flag
/// that is set from noon on. Both constructors succeed on the inputs
/// admitted here.
#[verifier::external_body]
fn zone_hour12(utc_seconds: i64, offset_seconds: i32) -> (r: (bool, u32))
    requires
        instant_in_range(utc_seconds),
        offset_in_range(offset_seconds),
    ensures
        r.0 == is_pm_at(utc_seconds + offset_seconds),
        r.1 == hour12_at(utc_seconds + offset_seconds),
{
    let zone = FixedOffset::east_opt(offset_seconds).unwrap();
    let utc = DateTime::from_timestamp(utc_seconds, 0).unwrap();
    utc.with_timezone(&zone).hour12()
}

/// Calls chrono's `Timelike::minute` on the instant seen from the zone.
///
/// Claimed of chrono: the result is the minute of the hour of `utc + offset`
/// seconds.
#[verifier::external_body]
fn zone_minute(utc_seconds: i64, offset_seconds: i32) -> (r: u32)
    requires
        instant_in_range(utc_seconds),
        offset_in_range(offset_seconds),
    ensures
        r == minute_at(utc_seconds + offset_seconds),
{
    let zone = FixedOffset::east_opt(offset_seconds).unwrap();
    let utc = DateTime::from_timestamp(utc_seconds, 0).unwrap();
    utc.with_timezone(&zone).minute()
}

/// Calls chrono's `Datelike::weekday` on the instant seen from the zone.
///
/// Claimed of chrono: the result is the weekday of the local date, that is
/// of day `floor((utc + offset) / 86,400)` counted from the epoch, which was
/// a Thursday.
#[verifier::external_body]
fn zone_weekday(utc_seconds: i64, offset_seconds: i32) -> (r: Weekday)
    requires
        instant_in_range(utc_seconds),
        offset_in_range(offset_seconds),
    ensures
        r == weekday_at(utc_seconds + offset_seconds),
{
    let zone = FixedOffset::east_opt(offset_seconds).unwrap();
    let utc = DateTime::from_timestamp(utc_seconds, 0).unwrap();
    match utc.with_timezone(&zone).weekday() {
        chrono::Weekday::Mon => Weekday::Mon,
        chrono::Weekday::Tue => Weekday::Tue,
        chrono::Weekday::Wed => Weekday::Wed,
        chrono::Weekday::Thu => Weekday::Thu,
        chrono::Weekday::Fri => Weekday::Fri,
        chrono::Weekday::Sat => Weekday::Sat,
        chrono::Weekday::Sun => Weekday::Sun,
    }
}

/// The civil time in a zone at a fixed offset from UTC, or `None` when the
/// instant or the offset is outside the span that is converted.
pub fn local_time(utc_seconds: i64, offset_seconds: i32) -> (t: Option<LocalTime>)
    ensures
        t is Some <==> instant_in_range(utc_seconds) && offset_in_range(offset_seconds),
        t is Some ==> t->0 == local_time_at(utc_seconds, offset_seconds),
        t is Some ==> 1 <= t->0.hour12 <= 12 && t->0.minute < 60,
{
    if utc_seconds < EARLIEST_INSTANT || utc_seconds > LATEST_INSTANT {
        return None;
    }
    if offset_seconds <= -86_400 || offset_seconds >= 86_400 {
        return None;
    }
    let (is_pm, hour12) = zone_hour12(utc_seconds, offset_seconds);
    let minute: u32 = zone_minute(utc_seconds, offset_seconds);
    let weekday = zone_weekday(utc_seconds, offset_seconds);
    Some(LocalTime { is_pm, hour12: hour12 as u8, minute: minute as u8, weekday })
}

/// A zone one hour further east reads exactly one hour more: the minute is
/// the same and the hour is the next one, wrapping from 23 to 0.
pub proof fn one_hour_east_is_one_hour_ahead(utc_seconds: int, offset_seconds: int)
    ensures
        minute_at(utc_seconds + offset_seconds + 3_600) == minute_at(utc_seconds + offset_seconds),
        hour_at(utc_seconds + offset_seconds + 3_600) == (hour_at(utc_seconds + offset_seconds) + 1)
            % 24,
{
}

/// Two cities an hour apart, seen at one instant: the one further east shows
/// the same minute and the next hour of the dial, and the half of the day
/// differs exactly when the hour passes 11.
pub proof fn cities_an_hour_apart(utc_seconds: i64, offset_seconds: i32)
    requires
        instant_in_range(utc_seconds),
        offset_in_range(offset_seconds),
        offset_in_range((offset_seconds + 3_600) as i32),
    ensures
        ({
            let here = local_time_at(utc_seconds, offset_seconds);
            let east = local_time_at(utc_seconds, (offset_seconds + 3_600) as i32);
            &&& east.minute == here.minute
            &&& east.hour12 == (if here.hour12 == 12 { 1int } else { here.hour12 + 1 })
            &&& (east.is_pm != here.is_pm) == (here.hour12 == 11)
        }),
{
}

/// The weekday changes at local midnight and nowhere else: from one second
/// to the next the weekday differs exactly when the later second is the
/// first of a day, and it is then the following day.
pub proof fn weekday_turns_at_midnight(local: int)
    ensures
        weekday_at(local + 1) != weekday_at(local) <==> (local + 1) % 86_400 == 0,
        (local + 1) % 86_400 == 0 ==> weekday_at(local + 1) == weekday_at(local).next(),
        (local + 1) % 86_400 == 0 ==> hour_at(local + 1) == 0 && minute_at(local + 1) == 0,
{
}

} // verus!
