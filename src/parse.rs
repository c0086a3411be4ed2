use vstd::prelude::*;
use vstd::string::StrSliceExecFns;
use vstd::string::StringExecFns;
use crate::instant::{Instant, MAX_SECS, TimeError};
use crate::zone::ZoneId;

verus! {

/// The instant (seconds, nanoseconds) that an RFC 3339 text denotes.
pub uninterp spec fn rfc3339_instant(s: Seq<char>) -> Option<(int, int)>;

/// The wall-clock reading of a `YYYY-MM-DD HH:MM:SS` text, in seconds from
/// 1970-01-01 00:00:00 on the same wall clock.
pub uninterp spec fn naive_datetime_secs(s: Seq<char>) -> Option<int>;

/// The wall-clock reading of midnight on the day a `YYYY-MM-DD` text names,
/// in seconds from 1970-01-01 00:00:00 on the same wall clock.
pub uninterp spec fn naive_date_secs(s: Seq<char>) -> Option<int>;

/// Relies on `DateTime::parse_from_rfc3339` of chrono, read back as
/// `timestamp` and `timestamp_subsec_nanos`. The text holds at least a
/// four-digit year, date, time and offset (19 ASCII characters and one more);
/// the offset lies within a day, and a leap second (second 60) is read as
/// second 59 with the nanoseconds raised by one second.
#[verifier::external_body]
fn parse_rfc3339(s: &str) -> (r: Option<(i64, u32)>)
    ensures
        r is Some <==> rfc3339_instant(s@) is Some,
        r matches Some(p) ==> rfc3339_instant(s@) == Some((p.0 as int, p.1 as int)),
        r matches Some(p) ==> -62_167_219_200 - 86_400 <= p.0 <= 253_402_300_799 + 86_400 && p.1
            < 2_000_000_000,
        r is Some ==> s@.len() >= 20,
{
    match chrono::DateTime::parse_from_rfc3339(s) {
        Ok(dt) => Some((dt.timestamp(), dt.timestamp_subsec_nanos())),
        Err(_) => None,
    }
}

/// Relies on `NaiveDateTime::parse_from_str` of chrono with the format
/// `%Y-%m-%d %H:%M:%S`, read back with `and_utc().timestamp()`.
#[verifier::external_body]
fn parse_naive_datetime(s: &str) -> (r: Option<i64>)
    ensures
        r is Some <==> naive_datetime_secs(s@) is Some,
        r matches Some(v) ==> naive_datetime_secs(s@) == Some(v as int),
{
    match chrono::NaiveDateTime::parse_from_str(s, "%Y-%m-%d %H:%M:%S") {
        Ok(n) => Some(n.and_utc().timestamp()),
        Err(_) => None,
    }
}

/// Relies on `NaiveDate::parse_from_str` of chrono with the format
/// `%Y-%m-%d`, taken at midnight (`NaiveTime::MIN`) and read back with
/// `and_utc().timestamp()`: a whole number of days.
#[verifier::external_body]
fn parse_naive_date(s: &str) -> (r: Option<i64>)
    ensures
        r is Some <==> naive_date_secs(s@) is Some,
        r matches Some(v) ==> naive_date_secs(s@) == Some(v as int) && v % 86400 == 0,
{
    match chrono::NaiveDate::parse_from_str(s, "%Y-%m-%d") {
        Ok(d) => Some(d.and_time(chrono::NaiveTime::MIN).and_utc().timestamp()),
        Err(_) => None,
    }
}

/// The text is the word `now` in any mix of letter case.
pub open spec fn is_now_text(s: Seq<char>) -> bool {
    &&& s.len() == 3
    &&& (s[0] == 'n' || s[0] == 'N')
    &&& (s[1] == 'o' || s[1] == 'O')
    &&& (s[2] == 'w' || s[2] == 'W')
}

/// Whether the text is the word `now`, in any letter case.
pub fn is_now(s: &str) -> (r: bool)
    ensures
        r == is_now_text(s@),
{
    if s.unicode_len() != 3 {
        return false;
    }
    let a = s.get_char(0);
    let b = s.get_char(1);
    let c = s.get_char(2);
    (a == 'n' || a == 'N') && (b == 'o' || b == 'O') && (c == 'w' || c == 'W')
}

/// What a date-time text denotes.
pub enum Reading {
    /// The instant with these seconds and nanoseconds.
    At(int, int),
    /// A wall-clock time outside the supported range.
    Outside,
    /// No grammar reads the text, or its wall-clock time does not occur in
    /// the zone.
    Unreadable,
}

/// The instant at which `zone`'s wall clock reads `local`: one whose own
/// offset takes it to `local`, within a day of it. The registry's answer
/// always meets both conditions (see `ZoneId::from_local`).
pub open spec fn from_wall(zone: ZoneId, local: int) -> Reading {
    if !(-MAX_SECS <= local <= MAX_SECS) {
        Reading::Outside
    } else {
        match zone.from_local_spec(local) {
            Some(u) => if u + zone.offset_spec(u) == local && -86400 < local - u < 86400 {
                Reading::At(u, 0)
            } else {
                Reading::Unreadable
            },
            None => Reading::Unreadable,
        }
    }
}

/// The first second of year 0000 and the last of year 9999, each widened by
/// a day for the offset: the instants an RFC 3339 text can denote.
pub open spec fn rfc3339_span(secs: int, nanos: int) -> bool {
    -62_167_219_200 - 86_400 <= secs <= 253_402_300_799 + 86_400 && 0 <= nanos < 2_000_000_000
}

/// The wall-clock reading that `t` names where the date-time or date grammar
/// is the one that reads it (a date names its midnight).
pub open spec fn wall_text(t: Seq<char>, with_date: bool) -> Option<int> {
    if is_now_text(t) || rfc3339_instant(t) is Some {
        None
    } else if naive_datetime_secs(t) is Some {
        naive_datetime_secs(t)
    } else if with_date && naive_date_secs(t) is Some && naive_date_secs(t).unwrap() % 86400 == 0 {
        naive_date_secs(t)
    } else {
        None
    }
}

/// Nanoseconds in one second.
pub const NANOS_PER_SEC: u32 = 1_000_000_000;

/// What `t` denotes under the ordered grammars: `now` (the clock reading
/// `now`), an RFC 3339 text (a leap second carried into the next second), `YYYY-MM-DD HH:MM:SS` on `zone`'s wall clock,
/// and, where `with_date` holds, `YYYY-MM-DD` as midnight on that clock.
pub open spec fn reading(t: Seq<char>, zone: ZoneId, now: Instant, with_date: bool) -> Reading {
    if is_now_text(t) {
        Reading::At(now.secs as int, now.nanos as int)
    } else if let Some((secs, nanos)) = rfc3339_instant(t) {
        if rfc3339_span(secs, nanos) {
            Reading::At(secs + nanos / 1_000_000_000, nanos % 1_000_000_000)
        } else {
            Reading::Unreadable
        }
    } else if let Some(l) = wall_text(t, with_date) {
        from_wall(zone, l)
    } else {
        Reading::Unreadable
    }
}

/// The seconds and nanoseconds form a supported instant.
pub open spec fn in_range(secs: int, nanos: int) -> bool {
    -MAX_SECS <= secs <= MAX_SECS && 0 <= nanos < 1_000_000_000
}

/// How parsing `t` ends: the instant it reads, `OutOfRange` where that
/// instant is not supported, or `InvalidTimeFormat`; each error carries `t`.
pub open spec fn parse_outcome(r: Result<Instant, TimeError>, t: Seq<char>, reading: Reading) -> bool {
    match reading {
        Reading::At(s, n) => if in_range(s, n) {
            r matches Ok(i) && i.secs == s && i.nanos == n
        } else {
            r matches Err(TimeError::OutOfRange(x)) && x@ == t
        },
        Reading::Outside => r matches Err(TimeError::OutOfRange(x)) && x@ == t,
        Reading::Unreadable => r matches Err(TimeError::InvalidTimeFormat(x)) && x@ == t,
    }
}

/// The instant at which `zone`'s wall clock reads `local`.
fn instant_from_wall(text: &str, zone: &ZoneId, local: i64) -> (r: Result<Instant, TimeError>)
    requires
        zone.wf(),
    ensures
        parse_outcome(r, text@, from_wall(*zone, local as int)),
        r matches Ok(i) ==> i.wf() && i.secs + zone.offset_spec(i.secs as int) == local && -86400
            < local - i.secs < 86400,
        -MAX_SECS + 86400 <= local <= MAX_SECS - 86400 && zone.from_local_spec(local as int) is Some
            ==> r is Ok,
{
    if local < -MAX_SECS || local > MAX_SECS {
        return Err(TimeError::OutOfRange(String::from_str(text)));
    }
    match zone.from_local(local) {
        Some(u) => {
            if u < -MAX_SECS || u > MAX_SECS {
                Err(TimeError::OutOfRange(String::from_str(text)))
            } else {
                Ok(Instant { secs: u, nanos: 0 })
            }
        },
        None => Err(TimeError::InvalidTimeFormat(String::from_str(text))),
    }
}

/// Parses a date-time text into an instant, trying in order: `now` in any
/// letter case (the clock reading `now`), RFC 3339 with an offset,
/// `YYYY-MM-DD HH:MM:SS` on `zone`'s wall clock, and, where `with_date`
/// holds, `YYYY-MM-DD` as midnight on that clock.
pub fn parse_instant(text: &str, zone: &ZoneId, now: Instant, with_date: bool) -> (r: Result<
    Instant,
    TimeError,
>)
    requires
        zone.wf(),
        now.wf(),
    ensures
        parse_outcome(r, text@, reading(text@, *zone, now, with_date)),
        r matches Ok(i) ==> i.wf(),
        rfc3339_instant(text@) matches Some((s, n)) ==> (r matches Ok(i) && i.secs == s + n
            / 1_000_000_000 && i.nanos == n % 1_000_000_000 && -62_167_219_200 - 86_400 <= i.secs
            <= 253_402_300_799 + 86_401),
        wall_text(text@, with_date) matches Some(l) ==> (r matches Ok(i) ==> i.secs
            + zone.offset_spec(i.secs as int) == l && -86400 < l - i.secs < 86400 && i.nanos == 0),
        wall_text(text@, with_date) matches Some(l) ==> (-MAX_SECS + 86400 <= l <= MAX_SECS - 86400
            && zone.from_local_spec(l) is Some ==> r is Ok),
{
    let rfc = parse_rfc3339(text);
    if is_now(text) {
        return Ok(now);
    }
    match rfc {
        Some((s, n)) => {
            if n >= NANOS_PER_SEC {
                return Ok(Instant { secs: s + 1, nanos: n - NANOS_PER_SEC });
            } else {
                return Ok(Instant { secs: s, nanos: n });
            }
        },
        None => {},
    }
    match parse_naive_datetime(text) {
        Some(local) => {
            return instant_from_wall(text, zone, local);
        },
        None => {},
    }
    if with_date {
        match parse_naive_date(text) {
            Some(local) => {
                return instant_from_wall(text, zone, local);
            },
            None => {},
        }
    }
    Err(TimeError::InvalidTimeFormat(String::from_str(text)))
}

} // verus!
