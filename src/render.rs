use vstd::prelude::*;
use vstd::string::StringExecFns;
use vstd::arithmetic::div_mod::lemma_mod_multiples_vanish;
use crate::instant::{Instant, MAX_SECS};
use crate::text::{push_two_digits, two_digits};
use crate::zone::ZoneId;
use crate::parse::rfc3339_instant;

verus! {

/// The RFC 3339 text of the instant (`secs`, `nanos`) written with the
/// fixed offset `offset` seconds east of UTC.
pub uninterp spec fn rfc3339_text(secs: int, nanos: int, offset: int) -> Seq<char>;

/// The wall-clock reading `t` falls in the years 0000 to 9999, which RFC 3339
/// writes with four digits.
pub open spec fn four_digit_year(t: int) -> bool {
    -62_167_219_200 <= t <= 253_402_300_799
}

/// Relies on `DateTime::to_rfc3339` of chrono, on a `DateTime<FixedOffset>`
/// built from the instant and the offset (`write_rfc3339` with `AutoSi`
/// seconds and no `Z`). The text has at least a date, a time and an offset;
/// it ends with the offset as `±HH:MM`, rounded to the minute; where the year
/// has four digits, characters 11 to 18 are the wall-clock `HH:MM:SS`, and
/// where the offset is also whole minutes, `DateTime::parse_from_rfc3339`
/// reads it back as the same instant.
#[verifier::external_body]
fn rfc3339_of(secs: i64, nanos: u32, offset: i32) -> (r: String)
    requires
        -MAX_SECS <= secs <= MAX_SECS,
        nanos < 1_000_000_000,
        -86400 < offset < 86400,
    ensures
        r@ == rfc3339_text(secs as int, nanos as int, offset as int),
        r@.len() >= 20,
        r@.subrange(r@.len() - 6, r@.len() as int) == colon_offset_text(offset as int),
        four_digit_year(secs + offset) ==> r@.subrange(11, 19) == clock_24h(secs + offset),
        four_digit_year(secs + offset) && offset % 60 == 0 ==> rfc3339_instant(r@) == Some(
            (secs as int, nanos as int),
        ),
{
    match (chrono::DateTime::from_timestamp(secs, nanos), chrono::FixedOffset::east_opt(offset)) {
        (Some(dt), Some(off)) => dt.with_timezone(&off).to_rfc3339(),
        _ => String::new(),
    }
}

/// The text `YYYY-MM-DD HH:MM:SS ±HH:MM` of the instant `secs` on a wall
/// clock `offset` seconds east of UTC.
pub uninterp spec fn clock_text_with_offset(secs: int, offset: int) -> Seq<char>;

/// Relies on `DateTime::format` of chrono with `%Y-%m-%d %H:%M:%S %Z`, on a
/// `DateTime<FixedOffset>` built from the instant and the offset.
#[verifier::external_body]
pub(crate) fn local_clock_text(secs: i64, offset: i32) -> (r: String)
    requires
        -MAX_SECS <= secs <= MAX_SECS,
        -86400 < offset < 86400,
    ensures
        r@ == clock_text_with_offset(secs as int, offset as int),
{
    match (chrono::DateTime::from_timestamp(secs, 0), chrono::FixedOffset::east_opt(offset)) {
        (Some(dt), Some(off)) => dt.with_timezone(&off).format("%Y-%m-%d %H:%M:%S %Z").to_string(),
        _ => String::new(),
    }
}

/// The second of the day that a wall clock reading `t` seconds from the
/// epoch shows.
pub open spec fn second_of_day(t: int) -> int {
    t % 86400
}

/// `HH:MM:SS` on a 24-hour clock for the wall-clock reading `t`.
pub open spec fn clock_24h(t: int) -> Seq<char> {
    let d = second_of_day(t);
    two_digits(d / 3600) + seq![':'] + two_digits(d % 3600 / 60) + seq![':'] + two_digits(d % 60)
}

/// The hour on a 12-hour dial for the hour `h` of the day.
pub open spec fn dial_hour(h: int) -> int {
    if h % 12 == 0 { 12 } else { h % 12 }
}

/// `hh:MM:SS AM` or `hh:MM:SS PM` on a 12-hour clock for the wall-clock
/// reading `t`.
pub open spec fn clock_12h(t: int) -> Seq<char> {
    let d = second_of_day(t);
    two_digits(dial_hour(d / 3600)) + seq![':'] + two_digits(d % 3600 / 60) + seq![':']
        + two_digits(d % 60) + if d / 3600 < 12 {
        seq![' ', 'A', 'M']
    } else {
        seq![' ', 'P', 'M']
    }
}

/// An offset of `off` seconds as `+HHMM` or `-HHMM`, rounded to the nearest
/// minute.
pub open spec fn offset_text(off: int) -> Seq<char> {
    let a = if off < 0 { -off } else { off };
    let m = (a + 30) / 60;
    seq![if off < 0 { '-' } else { '+' }] + two_digits(m / 60) + two_digits(m % 60)
}

/// An offset of `off` seconds as `+HH:MM` or `-HH:MM`, rounded to the
/// nearest minute.
pub open spec fn colon_offset_text(off: int) -> Seq<char> {
    let a = if off < 0 { -off } else { off };
    let m = (a + 30) / 60;
    seq![if off < 0 { '-' } else { '+' }] + two_digits(m / 60) + seq![':'] + two_digits(m % 60)
}

/// Whole days added to a wall-clock reading to make it non-negative.
const DAY_SHIFT: i64 = 100_000_000;

/// The second of the day for a wall-clock reading near the supported range.
fn second_of_day_exec(t: i64) -> (r: u32)
    requires
        -MAX_SECS - 86400 <= t <= MAX_SECS + 86400,
    ensures
        r == second_of_day(t as int),
        r < 86400,
{
    let u: u64 = (t + DAY_SHIFT * 86400) as u64;
    let r = (u % 86400) as u32;
    proof {
        lemma_mod_multiples_vanish(DAY_SHIFT as int, t as int, 86400);
        assert(86400 * DAY_SHIFT + t == u);
    }
    r
}

/// The 24-hour clock text for the wall-clock reading `t`.
pub fn clock_24h_text(t: i64) -> (r: String)
    requires
        -MAX_SECS - 86400 <= t <= MAX_SECS + 86400,
    ensures
        r@ == clock_24h(t as int),
{
    let d = second_of_day_exec(t);
    let mut out = String::new();
    push_two_digits(&mut out, d / 3600);
    out.append(":");
    push_two_digits(&mut out, d % 3600 / 60);
    out.append(":");
    push_two_digits(&mut out, d % 60);
    proof {
        reveal_strlit(":");
    }
    assert(out@ =~= clock_24h(t as int));
    out
}

/// The 12-hour clock text for the wall-clock reading `t`.
pub fn clock_12h_text(t: i64) -> (r: String)
    requires
        -MAX_SECS - 86400 <= t <= MAX_SECS + 86400,
    ensures
        r@ == clock_12h(t as int),
{
    let d = second_of_day_exec(t);
    let h = d / 3600;
    let dial = if h % 12 == 0 { 12 } else { h % 12 };
    let mut out = String::new();
    push_two_digits(&mut out, dial);
    out.append(":");
    push_two_digits(&mut out, d % 3600 / 60);
    out.append(":");
    push_two_digits(&mut out, d % 60);
    if h < 12 {
        out.append(" AM");
    } else {
        out.append(" PM");
    }
    proof {
        reveal_strlit(":");
        reveal_strlit(" AM");
        reveal_strlit(" PM");
    }
    assert(out@ =~= clock_12h(t as int));
    out
}

/// The `±HHMM` text of an offset of `off` seconds.
pub fn offset_text_of(off: i32) -> (r: String)
    requires
        -86400 < off < 86400,
    ensures
        r@ == offset_text(off as int),
{
    let a: u32 = if off < 0 { (-off) as u32 } else { off as u32 };
    let m = (a + 30) / 60;
    let mut out = String::new();
    if off < 0 {
        out.append("-");
    } else {
        out.append("+");
    }
    push_two_digits(&mut out, m / 60);
    push_two_digits(&mut out, m % 60);
    proof {
        reveal_strlit("-");
        reveal_strlit("+");
    }
    assert(out@ =~= offset_text(off as int));
    out
}

/// An instant rendered through a zone.
#[derive(Debug)]
pub struct TimeInfo {
    pub timestamp: String,
    pub timezone: String,
    pub utc_offset: String,
    pub is_dst: bool,
    pub format_12h: String,
    pub format_24h: String,
}

/// The ambient zone of the machine and its current time.
#[derive(Debug)]
pub struct TimezoneInfo {
    pub name: String,
    pub current_time: String,
    pub utc_offset: String,
    pub is_dst: bool,
}

/// The detected clock display preference, with the current time both ways.
#[derive(Debug)]
pub struct TimeFormatInfo {
    pub detected_format: String,
    pub is_12_hour: bool,
    pub current_time_12h: String,
    pub current_time_24h: String,
}

/// `info` is the instant `i` seen through `zone`: every text field is what
/// the zone's offset and label at `i` give, the timestamp carries the same
/// clock time (for four-digit years) and offset as the other fields, and it
/// reads back as
/// `i` wherever RFC 3339 can carry it exactly (a four-digit year, an offset
/// of whole minutes). Daylight saving is not derived and is always reported
/// as off.
pub open spec fn describes(info: TimeInfo, i: Instant, zone: ZoneId) -> bool {
    let off = zone.offset_spec(i.secs as int);
    let wall = i.secs + off;
    &&& info.timestamp@ == rfc3339_text(i.secs as int, i.nanos as int, off)
    &&& info.timezone@ == zone.label_spec(i.secs as int)
    &&& info.utc_offset@ == offset_text(off)
    &&& !info.is_dst
    &&& info.format_12h@ == clock_12h(wall)
    &&& info.format_24h@ == clock_24h(wall)
    &&& -86400 < off < 86400
    &&& info.timestamp@.len() >= 20
    &&& info.timestamp@.subrange(info.timestamp@.len() - 6, info.timestamp@.len() as int)
        == colon_offset_text(off)
    &&& (four_digit_year(wall) ==> info.timestamp@.subrange(11, 19) == clock_24h(wall))
    &&& (four_digit_year(wall) && off % 60 == 0 ==> rfc3339_instant(info.timestamp@) == Some(
        (i.secs as int, i.nanos as int),
    ))
}

/// Renders the instant `i` through `zone`.
pub fn format_time_info(i: Instant, zone: &ZoneId) -> (r: TimeInfo)
    requires
        i.wf(),
        zone.wf(),
    ensures
        describes(r, i, *zone),
{
    let off = zone.offset_at(i.secs);
    let wall: i64 = i.secs + off as i64;
    TimeInfo {
        timestamp: rfc3339_of(i.secs, i.nanos, off),
        timezone: zone.label_at(i.secs),
        utc_offset: offset_text_of(off),
        is_dst: false,
        format_12h: clock_12h_text(wall),
        format_24h: clock_24h_text(wall),
    }
}

} // verus!
