use vstd::prelude::*;

verus! {

/// The largest number of seconds from the Unix epoch, either way, that an
/// instant of this library may lie at (about 253 000 years).
pub const MAX_SECS: i64 = 8_000_000_000_000;

/// Seconds in one hour.
pub const SECS_PER_HOUR: i64 = 3600;

/// An absolute point in time: whole seconds from 1970-01-01T00:00:00Z and a
/// sub-second part in nanoseconds.
#[derive(Clone, Copy, Debug, PartialEq, Eq, Structural)]
pub struct Instant {
    pub secs: i64,
    pub nanos: u32,
}

impl Instant {
    /// The seconds lie within the supported range and the nanoseconds below
    /// one second.
    pub open spec fn wf(self) -> bool {
        -MAX_SECS <= self.secs <= MAX_SECS && self.nanos < 1_000_000_000
    }

    /// Builds an instant from its parts, if they are in range.
    pub fn from_parts(secs: i64, nanos: u32) -> (r: Option<Instant>)
        ensures
            r is Some <==> (-MAX_SECS <= secs <= MAX_SECS && nanos < 1_000_000_000),
            r matches Some(i) ==> i.secs == secs && i.nanos == nanos && i.wf(),
    {
        if -MAX_SECS <= secs && secs <= MAX_SECS && nanos < 1_000_000_000 {
            Some(Instant { secs, nanos })
        } else {
            None
        }
    }
}

/// The instant `hours` hours after `i` (before it, for negative `hours`).
pub open spec fn shifted(i: Instant, hours: int) -> Instant {
    Instant { secs: (i.secs + hours * 3600) as i64, nanos: i.nanos }
}

/// `i` moved by `hours` stays within the supported range.
pub open spec fn shift_in_range(i: Instant, hours: int) -> bool {
    -MAX_SECS <= i.secs + hours * 3600 <= MAX_SECS
}

/// Why a query could not be answered. Each variant carries the text that
/// caused it.
#[derive(Clone, Debug)]
pub enum TimeError {
    /// The text matched none of the accepted date-time grammars.
    InvalidTimeFormat(String),
    /// The zone identifier is not in the registry.
    UnknownTimezone(String),
    /// The source zone of a conversion is not in the registry.
    InvalidSourceTimezone(String),
    /// The target zone of a conversion is not in the registry.
    InvalidTargetTimezone(String),
    /// The instant lies outside the supported range.
    OutOfRange(String),
}

/// Adds `hours * 3600` real seconds to the instant; `None` when the result
/// would leave the supported range.
pub fn add_hours(i: Instant, hours: i32) -> (r: Option<Instant>)
    requires
        i.wf(),
    ensures
        r is Some <==> shift_in_range(i, hours as int),
        r matches Some(j) ==> j == shifted(i, hours as int) && j.wf(),
{
    let delta: i64 = hours as i64 * SECS_PER_HOUR;
    let s: i64 = i.secs + delta;
    if -MAX_SECS <= s && s <= MAX_SECS {
        Some(Instant { secs: s, nanos: i.nanos })
    } else {
        None
    }
}

/// Moving an instant by `h` hours and then by `-h` hours gives back the
/// instant itself.
pub proof fn lemma_add_hours_inverse(i: Instant, h: int)
    requires
        i.wf(),
        shift_in_range(i, h),
    ensures
        shift_in_range(shifted(i, h), -h),
        shifted(shifted(i, h), -h) == i,
{
}

} // verus!
