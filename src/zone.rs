use chrono::{Offset, TimeZone};
use vstd::prelude::*;
use vstd::string::StrSliceExecFns;
use vstd::string::StringExecFns;
use crate::instant::{MAX_SECS, TimeError};
use crate::text::{opt_view, starts_with_text};

verus! {

#[verifier::external_type_specification]
#[verifier::external_body]
pub struct ExTz(chrono_tz::Tz);

/// The registry entry that an identifier names, if any.
pub uninterp spec fn zone_lookup(name: Seq<char>) -> Option<chrono_tz::Tz>;

/// The offset from UTC, in seconds, that the named zone applies at the
/// instant `secs` seconds after the epoch.
pub uninterp spec fn zone_offset_at(name: Seq<char>, secs: int) -> int;

/// The abbreviation (or offset text, where the zone has none) that the named
/// zone uses at the instant `secs` seconds after the epoch.
pub uninterp spec fn zone_abbrev_at(name: Seq<char>, secs: int) -> Seq<char>;

/// The earliest instant at which the named zone's wall clock reads `local`
/// (counted in seconds as if the wall clock were UTC); `None` inside a gap.
pub uninterp spec fn zone_local_to_utc(name: Seq<char>, local: int) -> Option<int>;

/// Seconds in one day.
pub const SECS_PER_DAY: i64 = 86400;

/// Instants handed to the registry lie within the supported range, widened
/// by two days for zone offsets.
pub open spec fn registry_secs(secs: int) -> bool {
    -MAX_SECS - 2 * SECS_PER_DAY <= secs <= MAX_SECS + 2 * SECS_PER_DAY
}

/// Relies on `chrono_tz::Tz::from_str`: an exact, case-sensitive lookup of
/// the identifier in the compiled-in database.
#[verifier::external_body]
fn lookup_zone(name: &str) -> (r: Option<chrono_tz::Tz>)
    ensures
        r == zone_lookup(name@),
{
    name.parse::<chrono_tz::Tz>().ok()
}

/// Relies on `TimeZone::offset_from_utc_datetime` for `chrono_tz::Tz` and
/// `FixedOffset::local_minus_utc`, which lies strictly between minus and
/// plus one day.
#[verifier::external_body]
fn registry_offset(name: &str, tz: chrono_tz::Tz, secs: i64) -> (r: i32)
    requires
        zone_lookup(name@) == Some(tz),
        registry_secs(secs as int),
    ensures
        r == zone_offset_at(name@, secs as int),
        -86400 < r < 86400,
{
    match chrono::DateTime::from_timestamp(secs, 0) {
        Some(dt) => tz.offset_from_utc_datetime(&dt.naive_utc()).fix().local_minus_utc(),
        None => 0,
    }
}

/// Relies on the `Display` of `chrono_tz::TzOffset` (what `%Z` prints): the
/// zone's abbreviation at that instant.
#[verifier::external_body]
fn registry_abbreviation(name: &str, tz: chrono_tz::Tz, secs: i64) -> (r: String)
    requires
        zone_lookup(name@) == Some(tz),
        registry_secs(secs as int),
    ensures
        r@ == zone_abbrev_at(name@, secs as int),
{
    match chrono::DateTime::from_timestamp(secs, 0) {
        Some(dt) => tz.offset_from_utc_datetime(&dt.naive_utc()).to_string(),
        None => String::new(),
    }
}

/// Relies on `TimeZone::from_local_datetime` for `chrono_tz::Tz` and
/// `LocalResult::earliest`: the earliest instant whose wall-clock reading in
/// the zone is `local`, which therefore equals the instant plus the zone's
/// offset at it, an offset strictly within one day.
#[verifier::external_body]
fn registry_local_to_utc(name: &str, tz: chrono_tz::Tz, local: i64) -> (r: Option<i64>)
    requires
        zone_lookup(name@) == Some(tz),
        registry_secs(local as int),
    ensures
        r is Some <==> zone_local_to_utc(name@, local as int) is Some,
        r matches Some(u) ==> zone_local_to_utc(name@, local as int) == Some(u as int),
        r matches Some(u) ==> u + zone_offset_at(name@, u as int) == local,
        r matches Some(u) ==> -86400 < local - u < 86400,
{
    match chrono::DateTime::from_timestamp(local, 0) {
        Some(dt) => tz.from_local_datetime(&dt.naive_utc()).earliest().map(|d| d.timestamp()),
        None => None,
    }
}

/// The identifier of the fixed zero-offset zone.
pub open spec fn utc_name() -> Seq<char> {
    seq!['U', 'T', 'C']
}

/// A validated zone: the fixed UTC zone, or an entry of the registry with the
/// identifier it was resolved from.
pub enum ZoneId {
    Utc,
    Named { name: String, tz: chrono_tz::Tz },
}

impl ZoneId {
    /// A named zone is the registry's entry for its identifier.
    pub open spec fn wf(&self) -> bool {
        match self {
            ZoneId::Utc => true,
            ZoneId::Named { name, tz } => zone_lookup(name@) == Some(*tz),
        }
    }

    /// The zone's offset from UTC at the instant `secs`.
    pub open spec fn offset_spec(&self, secs: int) -> int {
        match self {
            ZoneId::Utc => 0,
            ZoneId::Named { name, .. } => zone_offset_at(name@, secs),
        }
    }

    /// The zone's label at the instant `secs`.
    pub open spec fn label_spec(&self, secs: int) -> Seq<char> {
        match self {
            ZoneId::Utc => utc_name(),
            ZoneId::Named { name, .. } => zone_abbrev_at(name@, secs),
        }
    }

    /// The instant at which the zone's wall clock reads `local`.
    pub open spec fn from_local_spec(&self, local: int) -> Option<int> {
        match self {
            ZoneId::Utc => Some(local),
            ZoneId::Named { name, .. } => zone_local_to_utc(name@, local),
        }
    }

    /// The zone's offset from UTC, in seconds, at the instant `secs`.
    pub fn offset_at(&self, secs: i64) -> (r: i32)
        requires
            self.wf(),
            registry_secs(secs as int),
        ensures
            r == self.offset_spec(secs as int),
            -86400 < r < 86400,
    {
        match self {
            ZoneId::Utc => 0,
            ZoneId::Named { name, tz } => registry_offset(name.as_str(), *tz, secs),
        }
    }

    /// The zone's label at the instant `secs`: `UTC` for the fixed zone,
    /// else the registry's abbreviation.
    pub fn label_at(&self, secs: i64) -> (r: String)
        requires
            self.wf(),
            registry_secs(secs as int),
        ensures
            r@ == self.label_spec(secs as int),
    {
        match self {
            ZoneId::Utc => {
                proof {
                    reveal_strlit("UTC");
                }
                let s = String::from_str("UTC");
                assert(s@ =~= utc_name());
                s
            },
            ZoneId::Named { name, tz } => registry_abbreviation(name.as_str(), *tz, secs),
        }
    }

    /// The earliest instant at which the zone's wall clock reads `local`.
    pub fn from_local(&self, local: i64) -> (r: Option<i64>)
        requires
            self.wf(),
            registry_secs(local as int),
        ensures
            r is Some <==> self.from_local_spec(local as int) is Some,
            r matches Some(u) ==> self.from_local_spec(local as int) == Some(u as int),
            r matches Some(u) ==> u + self.offset_spec(u as int) == local,
            r matches Some(u) ==> -86400 < local - u < 86400,
    {
        match self {
            ZoneId::Utc => Some(local),
            ZoneId::Named { name, tz } => registry_local_to_utc(name.as_str(), *tz, local),
        }
    }
}

/// `s` is exactly the fixed zone's identifier.
pub fn is_utc_name(s: &str) -> (r: bool)
    ensures
        r == (s@ == utc_name()),
{
    proof {
        reveal_strlit("UTC");
    }
    assert("UTC"@ =~= utc_name());
    let r = s.unicode_len() == 3 && starts_with_text(s, "UTC");
    proof {
        if s@ == utc_name() {
            assert(s@.subrange(0, 3) =~= s@);
        }
        if r {
            assert(s@ =~= s@.subrange(0, 3));
        }
    }
    r
}

/// `a` and `b` are the same zone: both the fixed one, or both the same
/// registry entry under the same identifier.
pub open spec fn same_zone(a: ZoneId, b: ZoneId) -> bool {
    match (a, b) {
        (ZoneId::Utc, ZoneId::Utc) => true,
        (ZoneId::Named { name: n, tz: t }, ZoneId::Named { name: m, tz: u }) => n@ == m@ && t == u,
        _ => false,
    }
}

/// The identifier is absent, `UTC`, or in the registry.
pub open spec fn zone_known(id: Option<Seq<char>>) -> bool {
    match id {
        None => true,
        Some(s) => s == utc_name() || zone_lookup(s) is Some,
    }
}

/// `z` is what the identifier resolves to: the fixed zone where it is absent
/// or `UTC`, else the registry's entry under exactly that identifier.
pub open spec fn resolves_to(id: Option<Seq<char>>, z: ZoneId) -> bool {
    match id {
        None => z is Utc,
        Some(s) => if s == utc_name() {
            z is Utc
        } else {
            zone_lookup(s) matches Some(tz) && z matches ZoneId::Named { name, tz: t } && name@ == s
                && t == tz
        },
    }
}

/// Resolves an optional zone identifier. No identifier, or exactly `UTC`,
/// gives the fixed zone without a lookup; anything else must be a
/// registry identifier, matched exactly.
pub fn resolve(identifier: Option<&str>) -> (r: Result<ZoneId, TimeError>)
    ensures
        r is Ok <==> zone_known(opt_view(identifier)),
        r matches Ok(z) ==> resolves_to(opt_view(identifier), z) && z.wf(),
        r matches Err(e) ==> identifier matches Some(s) && e matches TimeError::UnknownTimezone(x)
            && x@ == s@,
{
    match identifier {
        None => Ok(ZoneId::Utc),
        Some(s) => {
            if is_utc_name(s) {
                Ok(ZoneId::Utc)
            } else {
                match lookup_zone(s) {
                    Some(tz) => Ok(ZoneId::Named { name: String::from_str(s), tz }),
                    None => Err(TimeError::UnknownTimezone(String::from_str(s))),
                }
            }
        },
    }
}

} // verus!
