//! Wall-clock time of day, decomposed into the units that drive the hands.
use vstd::prelude::*;
use chrono::Timelike;

verus! {

pub const HOURS_PER_DIAL: u32 = 12;
pub const MINUTES_PER_HOUR: u32 = 60;
pub const SECONDS_PER_MINUTE: u32 = 60;
pub const NANOS_PER_SECOND: u32 = 1_000_000_000;

/// A time of day on a 12-hour dial, read once and shared by all three hands.
#[derive(Clone, Copy, Debug, PartialEq, Eq, Structural)]
pub struct ClockTime {
    /// Hour in 12-hour form, 0 to 11 (noon and midnight are 0).
    pub hour12: u32,
    /// 0 to 59.
    pub minute: u32,
    /// 0 to 59.
    pub second: u32,
    /// Fraction of the second, 0 to 999,999,999.
    pub nanosecond: u32,
}

impl ClockTime {
    /// Every unit lies within its range.
    pub open spec fn wf(&self) -> bool {
        &&& self.hour12 < HOURS_PER_DIAL
        &&& self.minute < MINUTES_PER_HOUR
        &&& self.second < SECONDS_PER_MINUTE
        &&& self.nanosecond < NANOS_PER_SECOND
    }

    /// Builds a time from its 12-hour units; `None` when any is out of range.
    pub fn new(hour12: u32, minute: u32, second: u32, nanosecond: u32) -> (r: Option<ClockTime>)
        ensures
            r.is_some() <==> (hour12 < HOURS_PER_DIAL && minute < MINUTES_PER_HOUR
                && second < SECONDS_PER_MINUTE && nanosecond < NANOS_PER_SECOND),
            r matches Some(t) ==> t.wf() && t.hour12 == hour12 && t.minute == minute
                && t.second == second && t.nanosecond == nanosecond,
    {
        if hour12 < HOURS_PER_DIAL && minute < MINUTES_PER_HOUR && second < SECONDS_PER_MINUTE
            && nanosecond < NANOS_PER_SECOND {
            Some(ClockTime { hour12, minute, second, nanosecond })
        } else {
            None
        }
    }

    /// Builds a time from a 24-hour wall-clock reading. A leap second is
    /// reported as second 59 with a nanosecond count from 1,000,000,000 on;
    /// the hands then hold at the last instant of that minute. `None` when
    /// the hour, minute or second is out of range, or the nanosecond count
    /// exceeds a leap second.
    pub fn from_hms_nano(hour: u32, minute: u32, second: u32, nanosecond: u32) -> (r: Option<
        ClockTime,
    >)
        ensures
            r.is_some() <==> (hour < 2 * HOURS_PER_DIAL && minute < MINUTES_PER_HOUR
                && second < SECONDS_PER_MINUTE && nanosecond < 2 * NANOS_PER_SECOND),
            r matches Some(t) ==> t.wf() && t.hour12 == hour % HOURS_PER_DIAL && t.minute
                == minute && t.second == second && t.nanosecond == (if nanosecond
                < NANOS_PER_SECOND {
                nanosecond
            } else {
                (NANOS_PER_SECOND - 1) as u32
            }),
    {
        if hour < 2 * HOURS_PER_DIAL && minute < MINUTES_PER_HOUR && second < SECONDS_PER_MINUTE
            && nanosecond < 2 * NANOS_PER_SECOND {
            let nanos = if nanosecond < NANOS_PER_SECOND {
                nanosecond
            } else {
                NANOS_PER_SECOND - 1
            };
            Some(ClockTime { hour12: hour % HOURS_PER_DIAL, minute, second, nanosecond: nanos })
        } else {
            None
        }
    }

    /// The local time of day now.
    pub fn now() -> (r: ClockTime)
        ensures
            r.wf(),
    {
        let (hour, minute, second, nanosecond) = local_time_of_day();
        match ClockTime::from_hms_nano(hour, minute, second, nanosecond) {
            Some(t) => t,
            None => {
                proof {
                    assert(false);
                }
                ClockTime { hour12: 0, minute: 0, second: 0, nanosecond: 0 }
            },
        }
    }
}

/// Relies on chrono's `Local::now` and `DateTime::time` for the local time of
/// day, and on `Timelike::hour` (0 to 23), `minute` (0 to 59), `second` (0 to
/// 59, a leap second included) and `nanosecond` (below 2,000,000,000, the
/// range from 1,000,000,000 on marking a leap second) for its units.
#[verifier::external_body]
fn local_time_of_day() -> (r: (u32, u32, u32, u32))
    ensures
        r.0 < 24,
        r.1 < 60,
        r.2 < 60,
        r.3 < 2_000_000_000,
{
    let t = chrono::Local::now().time();
    (t.hour(), t.minute(), t.second(), t.nanosecond())
}

} // verus!
