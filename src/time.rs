//! Calendar time as the firmware clock reports it.
use vstd::prelude::*;

verus! {

/// The offset from GMT; only "unspecified" (local time) is named.
#[derive(Clone, Copy, Debug, PartialEq, Eq, Structural)]
pub enum TimeZone {
    Unspecified,
}

impl Default for TimeZone {
    fn default() -> (r: Self)
        ensures
            r == TimeZone::Unspecified,
    {
        TimeZone::Unspecified
    }
}

/// Daylight saving flags.
#[derive(Clone, Copy, Debug, PartialEq, Eq, Structural)]
pub enum Daylight {
    Adjust,
    In,
}

impl Default for Daylight {
    fn default() -> (r: Self)
        ensures
            r == Daylight::Adjust,
    {
        Daylight::Adjust
    }
}

/// A date and time of day.
#[derive(Clone, Copy, Debug, PartialEq, Eq, Structural)]
pub struct Time {
    pub year: u16,
    pub month: u8,
    pub day: u8,
    pub hour: u8,
    pub minute: u8,
    pub second: u8,
    pub nano_second: u32,
    pub time_zone: TimeZone,
    pub day_light: Daylight,
}

/// The time whose fields are all zero.
pub open spec fn zero_time() -> Time {
    Time {
        year: 0,
        month: 0,
        day: 0,
        hour: 0,
        minute: 0,
        second: 0,
        nano_second: 0,
        time_zone: TimeZone::Unspecified,
        day_light: Daylight::Adjust,
    }
}

impl Default for Time {
    fn default() -> (r: Self)
        ensures
            r == zero_time(),
    {
        Time {
            year: 0,
            month: 0,
            day: 0,
            hour: 0,
            minute: 0,
            second: 0,
            nano_second: 0,
            time_zone: TimeZone::default(),
            day_light: Daylight::default(),
        }
    }
}

impl Time {
    /// A textual form of the time; none is defined, so it is empty.
    pub fn format_time(&self) -> (r: &'static str)
        ensures
            r@.len() == 0,
    {
        let s = "";
        proof {
            reveal_strlit("");
        }
        s
    }

    pub fn year(&self) -> (r: u16)
        ensures
            r == self.year,
    {
        self.year
    }

    pub fn month(&self) -> (r: u8)
        ensures
            r == self.month,
    {
        self.month
    }

    pub fn day(&self) -> (r: u8)
        ensures
            r == self.day,
    {
        self.day
    }
}

/// What the clock can do.
#[derive(Clone, Copy, Debug, PartialEq, Eq, Structural)]
pub struct TimeCapablities {
    pub resolution: u32,
    pub accuracy: u32,
    pub sets_to_zero: bool,
}

} // verus!
