//! Resolution of an ambiguous local wall-clock moment into an absolute
//! instant for a named timezone.
//!
//! A naive local time cannot be converted without knowing which UTC offset
//! applied at that wall-clock moment, and the offset itself depends on the
//! not-yet-known instant — circular near daylight-saving transitions. The
//! resolver breaks the circle in two phases: combine the wall clock with the
//! zone's primary offset to a provisional instant, ask the zone's
//! rules which offset applies at that instant, and recombine. For wall-clock
//! values inside a skipped or repeated hour the chosen offset may not match
//! the writer's intent; that edge is accepted, not guessed away.

use vstd::prelude::*;

use crate::calendar::{civil_seconds_of, NaiveDateTime};
use time_tz::Offset;
use time_tz::TimeZone;

verus! {

/// Unix seconds of the earliest instant the offset lookup can be asked about
/// (midnight opening year -9999, the representable range of the time library).
pub const UNIX_SECONDS_MIN: i64 = -377705116800;

/// Unix seconds of the latest instant the offset lookup can be asked about
/// (the last second of year 9999).
pub const UNIX_SECONDS_MAX: i64 = 253402300799;

/// The primary offset, in seconds, of the named zone: the zone database's
/// main (first) timespan, independent of any seasonal adjustment; `None` for
/// a name the database does not know.
pub uninterp spec fn zone_primary_offset(name: Seq<char>) -> Option<int>;

/// The offset, in seconds, that the named zone's rules apply at the given
/// absolute instant (Unix seconds). Meaningful only for names the database
/// knows and instants in the representable range.
pub uninterp spec fn zone_offset_at(name: Seq<char>, instant: int) -> int;

/// Relies on `time_tz::timezones::get_by_name` and
/// `time_tz::TimeZone::get_offset_primary` (read out through
/// `time_tz::Offset::to_utc` and `time::UtcOffset::whole_seconds`): the
/// primary offset of a named zone is the first timespan of the zone database
/// compiled into the crate — a fixed function of the name — and the lookup is
/// `None` exactly when the name is not in that database. A `time::UtcOffset`
/// stores at most 25:59:59 either way, so the seconds lie within 93599.
#[verifier::external_body]
fn lookup_primary_offset(name: &str) -> (r: Option<i32>)
    ensures
        r is Some <==> zone_primary_offset(name@) is Some,
        r matches Some(o) ==> zone_primary_offset(name@) == Some(o as int) && -93599 <= o
            <= 93599,
{
    time_tz::timezones::get_by_name(name).map(
        |tz| tz.get_offset_primary().to_utc().whole_seconds(),
    )
}

/// Relies on `time_tz::TimeZone::get_offset_utc` on the zone found by
/// `time_tz::timezones::get_by_name`: the offset in force at an absolute
/// instant is found by a search of the zone's fixed timespan set — a function
/// of the name and the instant alone. The instant is converted with
/// `time::OffsetDateTime::from_unix_timestamp`, which succeeds exactly for
/// timestamps of the years -9999 to 9999; the offset seconds are read out as
/// in the primary-offset lookup and lie within 93599.
#[verifier::external_body]
fn lookup_offset_at(name: &str, instant: i64) -> (r: Option<i32>)
    ensures
        r is Some <==> (zone_primary_offset(name@) is Some && UNIX_SECONDS_MIN <= instant
            <= UNIX_SECONDS_MAX),
        r matches Some(o) ==> o == zone_offset_at(name@, instant as int) && -93599 <= o <= 93599,
{
    match time_tz::timezones::get_by_name(name) {
        None => None,
        Some(tz) => match time::OffsetDateTime::from_unix_timestamp(instant) {
            Err(_) => None,
            Ok(t) => Some(tz.get_offset_utc(&t).to_utc().whole_seconds()),
        },
    }
}

/// Whether the timezone database knows the given zone name.
pub fn zone_is_known(name: &str) -> (r: bool)
    ensures
        r == (zone_primary_offset(name@) is Some),
{
    lookup_primary_offset(name).is_some()
}

/// An absolute instant presented as the wall clock of its area: the naive
/// fields together with the UTC offset, in seconds, that applied to them.
#[derive(Clone, Copy, Debug, PartialEq, Eq, Structural)]
pub struct ResolvedTime {
    pub wall: NaiveDateTime,
    pub offset_seconds: i32,
}

impl ResolvedTime {
    pub open spec fn wf(self) -> bool {
        self.wall.valid() && -93599 <= self.offset_seconds <= 93599
    }

    /// The instant in Unix seconds: the wall clock read as if at UTC, shifted
    /// back by the offset that applied to it.
    pub open spec fn spec_unix_seconds(self) -> int {
        self.wall.civil_seconds() - self.offset_seconds
    }

    pub fn unix_seconds(&self) -> (r: i64)
        requires
            self.wf(),
        ensures
            r == self.spec_unix_seconds(),
    {
        civil_seconds_of(&self.wall) - self.offset_seconds as i64
    }
}

/// The two-phase resolution: the wall clock shifted by the zone's primary
/// offset gives a provisional instant; the offset the zone's rules apply at
/// that instant is the one combined with the same wall clock. `None` when the
/// zone name is unknown, or when the provisional instant falls outside the
/// representable range.
pub open spec fn spec_resolve(dt: NaiveDateTime, zone: Seq<char>) -> Option<ResolvedTime> {
    match zone_primary_offset(zone) {
        Some(primary) => {
            let provisional = dt.civil_seconds() - primary;
            if UNIX_SECONDS_MIN <= provisional <= UNIX_SECONDS_MAX {
                Some(
                    ResolvedTime {
                        wall: dt,
                        offset_seconds: zone_offset_at(zone, provisional) as i32,
                    },
                )
            } else {
                None
            }
        },
        None => None,
    }
}

/// Resolves a naive local wall-clock moment against the named zone's rules,
/// two-phase as described on [`spec_resolve`]. The wall-clock fields are kept
/// as written; only the offset is discovered.
pub fn resolve_local_time(dt: &NaiveDateTime, zone: &str) -> (r: Option<ResolvedTime>)
    requires
        dt.valid(),
    ensures
        r == spec_resolve(*dt, zone@),
        r matches Some(t) ==> t.wall == *dt && t.wf(),
{
    let primary = match lookup_primary_offset(zone) {
        Some(p) => p,
        None => {
            return None;
        },
    };
    let civil = civil_seconds_of(dt);
    let provisional = civil - primary as i64;
    match lookup_offset_at(zone, provisional) {
        Some(corrected) => Some(ResolvedTime { wall: *dt, offset_seconds: corrected }),
        None => None,
    }
}

} // verus!
