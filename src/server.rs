use vstd::prelude::*;
use vstd::string::StringExecFns;
use crate::catalog::{CATALOG_LEN, listing, select_zones, zone_catalog};
use crate::instant::{Instant, MAX_SECS, TimeError, add_hours};
use crate::parse::{Reading, in_range, parse_instant, reading, rfc3339_instant, wall_text};
use crate::render::{
    TimeFormatInfo,
    TimeInfo,
    TimezoneInfo,
    clock_12h,
    clock_12h_text,
    clock_24h,
    clock_24h_text,
    clock_text_with_offset,
    describes,
    format_time_info,
    local_clock_text,
    offset_text,
    offset_text_of,
};
use crate::text::{contains_text, opt_view, same_text, starts_with_text, text_contains, text_starts_with};
use crate::zone::{ZoneId, resolve, resolves_to, same_zone, zone_known, zone_lookup};

verus! {

/// The view of an optional owned text.
pub open spec fn opt_string_view(s: Option<String>) -> Option<Seq<char>> {
    match s {
        None => None,
        Some(t) => Some(t@),
    }
}

/// Borrows the text of an optional owned string.
fn as_opt_str(s: &Option<String>) -> (r: Option<&str>)
    ensures
        opt_view(r) == opt_string_view(*s),
{
    match s {
        None => None,
        Some(t) => Some(t.as_str()),
    }
}

/// How a query whose text reads as `rd` ends once the instant is moved by
/// `hours` hours and shown through `zone`.
pub open spec fn answers(
    r: Result<TimeInfo, TimeError>,
    t: Seq<char>,
    rd: Reading,
    hours: int,
    zone: ZoneId,
) -> bool {
    match rd {
        Reading::At(s, n) => if in_range(s, n) && in_range(s + hours * 3600, n) {
            r matches Ok(info) && describes(
                info,
                Instant { secs: (s + hours * 3600) as i64, nanos: n as u32 },
                zone,
            )
        } else {
            r matches Err(TimeError::OutOfRange(x)) && x@ == t
        },
        Reading::Outside => r matches Err(TimeError::OutOfRange(x)) && x@ == t,
        Reading::Unreadable => r matches Err(TimeError::InvalidTimeFormat(x)) && x@ == t,
    }
}

/// The error for a zone identifier that does not resolve.
pub open spec fn unknown_zone(r: Result<TimeInfo, TimeError>, id: Option<Seq<char>>) -> bool {
    r matches Err(TimeError::UnknownTimezone(x)) && id == Some(x@)
}

/// The detected preference is the 12-hour clock: the time locale contains
/// `US`, or the language locale begins with `en_US`.
pub open spec fn prefers_12h(lc_time: Seq<char>, lang: Seq<char>) -> bool {
    text_contains(lc_time, seq!['U', 'S']) || text_starts_with(lang, seq!['e', 'n', '_', 'U', 'S'])
}

/// Answers time queries. Holds the registry's identifiers, read once.
pub struct TimeDateServer {
    pub catalog: Vec<String>,
}

impl TimeDateServer {
    /// The catalog is the registry's identifiers: all of them, each one
    /// resolvable and named once.
    pub open spec fn wf(&self) -> bool {
        &&& self.catalog@.len() == CATALOG_LEN
        &&& forall|k: int| 0 <= k < self.catalog@.len() ==> zone_lookup(#[trigger] self.catalog@[k]@) is Some
        &&& forall|j: int, k: int|
            0 <= j < k < self.catalog@.len() ==> #[trigger] self.catalog@[j]@ != #[trigger] self.catalog@[k]@
    }

    /// A server over the registry's identifiers, in the registry's order.
    pub fn new() -> (r: TimeDateServer)
        ensures
            r.wf(),
    {
        TimeDateServer { catalog: zone_catalog() }
    }

    /// The time at a date-time text, read with all four grammars on the
    /// zone's wall clock and shown in that zone (UTC by default).
    pub fn get_time_at(&self, date_time: String, timezone: Option<String>, now: Instant) -> (r:
        Result<TimeInfo, TimeError>)
        requires
            now.wf(),
        ensures
            !zone_known(opt_string_view(timezone)) ==> unknown_zone(r, opt_string_view(timezone)),
            forall|z: ZoneId|
                resolves_to(opt_string_view(timezone), z) ==> answers(
                    r,
                    date_time@,
                    reading(date_time@, z, now, true),
                    0,
                    z,
                ),
            rfc3339_instant(date_time@) matches Some((s, n)) ==> (zone_known(opt_string_view(timezone))
                ==> (r matches Ok(info) && forall|z: ZoneId|
                resolves_to(opt_string_view(timezone), z) ==> describes(
                    info,
                    (Instant { secs: (s + n / 1_000_000_000) as i64, nanos: (n % 1_000_000_000) as u32 }),
                    z,
                ))),
            wall_text(date_time@, true) matches Some(l) ==> (-MAX_SECS + 86400 <= l <= MAX_SECS - 86400
                ==> forall|z: ZoneId|
                resolves_to(opt_string_view(timezone), z) && z.from_local_spec(l) is Some ==> (r matches Ok(
                    info,
                ) && info.format_24h@ == clock_24h(l) && info.format_12h@ == clock_12h(l))),
    {
        let zone = match resolve(as_opt_str(&timezone)) {
            Ok(z) => z,
            Err(e) => {
                return Err(e);
            },
        };
        proof {
            assert forall|z: ZoneId| resolves_to(opt_string_view(timezone), z) implies same_zone(z, zone) by {}
        }
        let i = match parse_instant(date_time.as_str(), &zone, now, true) {
            Ok(i) => i,
            Err(e) => {
                return Err(e);
            },
        };
        Ok(format_time_info(i, &zone))
    }

    /// The time `offset_hours` hours after a base text (`now`, RFC 3339, or
    /// `YYYY-MM-DD HH:MM:SS` on the zone's wall clock), shown in the zone.
    pub fn calculate_time_offset(
        &self,
        base_time: String,
        offset_hours: i32,
        timezone: Option<String>,
        now: Instant,
    ) -> (r: Result<TimeInfo, TimeError>)
        requires
            now.wf(),
        ensures
            !zone_known(opt_string_view(timezone)) ==> unknown_zone(r, opt_string_view(timezone)),
            forall|z: ZoneId|
                resolves_to(opt_string_view(timezone), z) ==> answers(
                    r,
                    base_time@,
                    reading(base_time@, z, now, false),
                    offset_hours as int,
                    z,
                ),
            rfc3339_instant(base_time@) is Some ==> (zone_known(opt_string_view(timezone)) ==> r is Ok),
            wall_text(base_time@, false) matches Some(l) ==> (-MAX_SECS + 86400 <= l <= MAX_SECS - 86400
                && -MAX_SECS + 86400 <= l + offset_hours * 3600 <= MAX_SECS - 86400 ==> forall|z: ZoneId|
                resolves_to(opt_string_view(timezone), z) && z.from_local_spec(l) is Some ==> r is Ok),
    {
        let zone = match resolve(as_opt_str(&timezone)) {
            Ok(z) => z,
            Err(e) => {
                return Err(e);
            },
        };
        proof {
            assert forall|z: ZoneId| resolves_to(opt_string_view(timezone), z) implies same_zone(z, zone) by {}
        }
        let i = match parse_instant(base_time.as_str(), &zone, now, false) {
            Ok(i) => i,
            Err(e) => {
                return Err(e);
            },
        };
        match add_hours(i, offset_hours) {
            Some(j) => Ok(format_time_info(j, &zone)),
            None => Err(TimeError::OutOfRange(String::from_str(base_time.as_str()))),
        }
    }

    /// A time text read on the source zone's wall clock (`now`, RFC 3339, or
    /// `YYYY-MM-DD HH:MM:SS`), shown in the target zone.
    pub fn convert_timezone(&self, time: String, from_timezone: String, to_timezone: String, now: Instant) -> (r:
        Result<TimeInfo, TimeError>)
        requires
            now.wf(),
        ensures
            !zone_known(Some(from_timezone@)) ==> (r matches Err(
                TimeError::InvalidSourceTimezone(x),
            ) && x@ == from_timezone@),
            zone_known(Some(from_timezone@)) && !zone_known(Some(to_timezone@)) ==> (r matches Err(
                TimeError::InvalidTargetTimezone(x),
            ) && x@ == to_timezone@),
            forall|a: ZoneId, b: ZoneId|
                resolves_to(Some(from_timezone@), a) && resolves_to(Some(to_timezone@), b) ==> answers(
                    r,
                    time@,
                    reading(time@, a, now, false),
                    0,
                    b,
                ),
            rfc3339_instant(time@) is Some ==> (zone_known(Some(from_timezone@)) && zone_known(
                Some(to_timezone@),
            ) ==> r is Ok),
            wall_text(time@, false) matches Some(l) ==> (-MAX_SECS + 86400 <= l <= MAX_SECS - 86400
                && zone_known(Some(to_timezone@)) ==> forall|a: ZoneId|
                resolves_to(Some(from_timezone@), a) && a.from_local_spec(l) is Some ==> r is Ok),
    {
        let from = match resolve(Some(from_timezone.as_str())) {
            Ok(z) => z,
            Err(_) => {
                return Err(TimeError::InvalidSourceTimezone(String::from_str(from_timezone.as_str())));
            },
        };
        let to = match resolve(Some(to_timezone.as_str())) {
            Ok(z) => z,
            Err(_) => {
                return Err(TimeError::InvalidTargetTimezone(String::from_str(to_timezone.as_str())));
            },
        };
        proof {
            assert forall|a: ZoneId| resolves_to(Some(from_timezone@), a) implies same_zone(a, from) by {}
            assert forall|b: ZoneId| resolves_to(Some(to_timezone@), b) implies same_zone(b, to) by {}
        }
        let i = match parse_instant(time.as_str(), &from, now, false) {
            Ok(i) => i,
            Err(e) => {
                return Err(e);
            },
        };
        Ok(format_time_info(i, &to))
    }

    /// The clock reading `now` shown in the zone (UTC by default).
    pub fn get_current_time(&self, timezone: Option<String>, now: Instant) -> (r: Result<
        TimeInfo,
        TimeError,
    >)
        requires
            now.wf(),
        ensures
            !zone_known(opt_string_view(timezone)) ==> unknown_zone(r, opt_string_view(timezone)),
            forall|z: ZoneId|
                resolves_to(opt_string_view(timezone), z) ==> (r matches Ok(info) && describes(
                    info,
                    now,
                    z,
                )),
    {
        let zone = match resolve(as_opt_str(&timezone)) {
            Ok(z) => z,
            Err(e) => {
                return Err(e);
            },
        };
        proof {
            assert forall|z: ZoneId| resolves_to(opt_string_view(timezone), z) implies same_zone(z, zone) by {}
        }
        Ok(format_time_info(now, &zone))
    }

    /// The ambient zone, given by its offset `local_offset` at `now`: named
    /// `Local`, with the current wall-clock time and the offset.
    pub fn get_timezone_info(&self, now: Instant, local_offset: i32) -> (r: TimezoneInfo)
        requires
            now.wf(),
            -86400 < local_offset < 86400,
        ensures
            r.name@ == seq!['L', 'o', 'c', 'a', 'l'],
            r.current_time@ == clock_text_with_offset(now.secs as int, local_offset as int),
            r.utc_offset@ == offset_text(local_offset as int),
            !r.is_dst,
    {
        proof {
            reveal_strlit("Local");
        }
        let name = String::from_str("Local");
        assert(name@ =~= seq!['L', 'o', 'c', 'a', 'l']);
        TimezoneInfo {
            name,
            current_time: local_clock_text(now.secs, local_offset),
            utc_offset: offset_text_of(local_offset),
            is_dst: false,
        }
    }

    /// The clock display preference from the time locale `lc_time` and the
    /// language locale `lang` (empty where unset), with the ambient time both
    /// ways.
    pub fn get_time_format(&self, lc_time: &str, lang: &str, now: Instant, local_offset: i32) -> (r:
        TimeFormatInfo)
        requires
            now.wf(),
            -86400 < local_offset < 86400,
        ensures
            r.is_12_hour == prefers_12h(lc_time@, lang@),
            r.detected_format@ == if r.is_12_hour {
                seq!['1', '2', '-', 'h', 'o', 'u', 'r']
            } else {
                seq!['2', '4', '-', 'h', 'o', 'u', 'r']
            },
            r.current_time_12h@ == clock_12h(now.secs + local_offset),
            r.current_time_24h@ == clock_24h(now.secs + local_offset),
    {
        proof {
            reveal_strlit("US");
            reveal_strlit("en_US");
            reveal_strlit("12-hour");
            reveal_strlit("24-hour");
        }
        assert("US"@ =~= seq!['U', 'S']);
        assert("en_US"@ =~= seq!['e', 'n', '_', 'U', 'S']);
        let is_12_hour = contains_text(lc_time, "US") || starts_with_text(lang, "en_US");
        let detected_format = if is_12_hour {
            String::from_str("12-hour")
        } else {
            String::from_str("24-hour")
        };
        assert("12-hour"@ =~= seq!['1', '2', '-', 'h', 'o', 'u', 'r']);
        assert("24-hour"@ =~= seq!['2', '4', '-', 'h', 'o', 'u', 'r']);
        let wall: i64 = now.secs + local_offset as i64;
        TimeFormatInfo {
            detected_format,
            is_12_hour,
            current_time_12h: clock_12h_text(wall),
            current_time_24h: clock_24h_text(wall),
        }
    }

    /// The registry identifiers that contain `filter`, ignoring letter case
    /// (all without a filter), in registry order, at most fifty.
    pub fn list_timezones(&self, filter: Option<String>) -> (r: Vec<String>)
        ensures
            r.deep_view() == listing(self.catalog.deep_view(), opt_string_view(filter)),
    {
        select_zones(&self.catalog, as_opt_str(&filter))
    }

    /// The current time by zone path segment: `local` means the default zone.
    pub fn current_time_resource(&self, timezone: String, now: Instant) -> (r: Result<
        TimeInfo,
        TimeError,
    >)
        requires
            now.wf(),
        ensures
            !zone_known(resource_zone(timezone@)) ==> unknown_zone(r, resource_zone(timezone@)),
            forall|z: ZoneId|
                resolves_to(resource_zone(timezone@), z) ==> (r matches Ok(info) && describes(
                    info,
                    now,
                    z,
                )),
    {
        proof {
            reveal_strlit("local");
        }
        assert("local"@ =~= seq!['l', 'o', 'c', 'a', 'l']);
        let tz_option = if same_text(timezone.as_str(), "local") {
            None
        } else {
            Some(timezone)
        };
        self.get_current_time(tz_option, now)
    }

    /// The ambient zone's description; as `get_timezone_info`.
    pub fn timezone_info_resource(&self, now: Instant, local_offset: i32) -> (r: TimezoneInfo)
        requires
            now.wf(),
            -86400 < local_offset < 86400,
        ensures
            r.name@ == seq!['L', 'o', 'c', 'a', 'l'],
            r.current_time@ == clock_text_with_offset(now.secs as int, local_offset as int),
            r.utc_offset@ == offset_text(local_offset as int),
            !r.is_dst,
    {
        self.get_timezone_info(now, local_offset)
    }

    /// The zone listing by filter path segment: `all` means no filter.
    pub fn timezone_list_resource(&self, filter: String) -> (r: Vec<String>)
        ensures
            r.deep_view() == listing(self.catalog.deep_view(), resource_filter(filter@)),
    {
        proof {
            reveal_strlit("all");
        }
        assert("all"@ =~= seq!['a', 'l', 'l']);
        let filter_option = if same_text(filter.as_str(), "all") {
            None
        } else {
            Some(filter)
        };
        self.list_timezones(filter_option)
    }

    /// The clock display preference; as `get_time_format`.
    pub fn time_format_resource(&self, lc_time: &str, lang: &str, now: Instant, local_offset: i32) -> (r:
        TimeFormatInfo)
        requires
            now.wf(),
            -86400 < local_offset < 86400,
        ensures
            r.is_12_hour == prefers_12h(lc_time@, lang@),
            r.detected_format@ == if r.is_12_hour {
                seq!['1', '2', '-', 'h', 'o', 'u', 'r']
            } else {
                seq!['2', '4', '-', 'h', 'o', 'u', 'r']
            },
            r.current_time_12h@ == clock_12h(now.secs + local_offset),
            r.current_time_24h@ == clock_24h(now.secs + local_offset),
    {
        self.get_time_format(lc_time, lang, now, local_offset)
    }
}

/// The zone a path segment names: none for `local`.
pub open spec fn resource_zone(seg: Seq<char>) -> Option<Seq<char>> {
    if seg == seq!['l', 'o', 'c', 'a', 'l'] {
        None
    } else {
        Some(seg)
    }
}

/// The filter a path segment names: none for `all`.
pub open spec fn resource_filter(seg: Seq<char>) -> Option<Seq<char>> {
    if seg == seq!['a', 'l', 'l'] {
        None
    } else {
        Some(seg)
    }
}


} // verus!
