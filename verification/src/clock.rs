//! Wall-clock time of day, in UTC, as the scheduler and the status page
//! see it.

use vstd::prelude::*;

verus! {

/// A time of day to the second.
#[derive(Clone, Copy, Debug, PartialEq, Eq, Structural, Hash)]
pub struct TimeOfDay {
    pub hour: u32,
    pub minute: u32,
    pub second: u32,
}

impl TimeOfDay {
    /// A time that a 24-hour clock can show.
    pub open spec fn valid(self) -> bool {
        self.hour < 24 && self.minute < 60 && self.second < 60
    }

    /// Seconds since midnight.
    pub open spec fn seconds_of_day(self) -> int {
        self.hour * 3600 + self.minute * 60 + self.second
    }

    /// The first second of an hour.
    pub open spec fn on_the_hour(self) -> bool {
        self.minute == 0 && self.second == 0
    }

    /// The time `hour:minute:second`, or `None` if no clock shows it.
    pub fn new(hour: u32, minute: u32, second: u32) -> (time: Option<TimeOfDay>)
        ensures
            time.is_some() <==> hour < 24 && minute < 60 && second < 60,
            time matches Some(t) ==> t.hour == hour && t.minute == minute && t.second == second,
    {
        if hour < 24 && minute < 60 && second < 60 {
            Some(TimeOfDay { hour, minute, second })
        } else {
            None
        }
    }

    /// Whether this is the first second of an hour.
    pub fn is_on_the_hour(&self) -> (yes: bool)
        ensures
            yes == self.on_the_hour(),
    {
        self.minute == 0 && self.second == 0
    }
}

#[verifier::external_type_specification]
#[verifier::external_body]
pub struct ExNaiveTime(chrono::NaiveTime);

/// `chrono::Utc::now()`, reduced to its time of day with `DateTime::time()`.
/// Nothing is claimed of which time comes back. The call reads the system
/// clock, and chrono panics in it if that clock stands before 1970 or
/// beyond the dates that chrono can hold.
#[verifier::external_body]
fn utc_time() -> chrono::NaiveTime {
    chrono::Utc::now().time()
}

/// `chrono::Timelike::hour` of a `NaiveTime`: the hour number, from 0 to 23.
#[verifier::external_body]
fn hour_of(time: &chrono::NaiveTime) -> (hour: u32)
    ensures
        hour < 24,
{
    chrono::Timelike::hour(time)
}

/// `chrono::Timelike::minute` of a `NaiveTime`: the minute number, from 0
/// to 59.
#[verifier::external_body]
fn minute_of(time: &chrono::NaiveTime) -> (minute: u32)
    ensures
        minute < 60,
{
    chrono::Timelike::minute(time)
}

/// `chrono::Timelike::second` of a `NaiveTime`: the second number, from 0
/// to 59; a leap second reads as 59.
#[verifier::external_body]
fn second_of(time: &chrono::NaiveTime) -> (second: u32)
    ensures
        second < 60,
{
    chrono::Timelike::second(time)
}

/// The current time of day in UTC. Which time that is depends on the
/// system clock; it is always one that a 24-hour clock can show.
pub fn now() -> (time: TimeOfDay)
    ensures
        time.valid(),
{
    let t = utc_time();
    TimeOfDay { hour: hour_of(&t), minute: minute_of(&t), second: second_of(&t) }
}

} // verus!
