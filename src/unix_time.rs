//! Instants as whole seconds since the UNIX epoch, and their two written forms.

use vstd::prelude::*;

verus! {

/// The last second, counted from the UNIX epoch, that chrono writes as a date
/// in every time zone: one day before the end of year 262142.
pub const MAX_TIMESTAMP: u64 = 8_210_266_790_399;

/// What chrono writes for the instant `secs` in UTC with `%Y-%m-%dT%H:%M:%S%z`.
pub uninterp spec fn utc_datetime_text(secs: int) -> Seq<char>;

/// What chrono writes for the instant `secs` in the zone named `zone` with
/// `%Y-%m-%d %H:%M:%S %Z`.
pub uninterp spec fn zoned_datetime_text(secs: int, zone: Seq<char>) -> Seq<char>;

/// Whether chrono-tz has a zone of that name.
pub uninterp spec fn timezone_known(name: Seq<char>) -> bool;

/// Relies on chrono's `DateTime::<Utc>::from_timestamp` and `format`: the text
/// depends on the second alone.
#[verifier::external_body]
fn utc_datetime_string(secs: u64) -> (r: String)
    requires
        secs <= MAX_TIMESTAMP,
    ensures
        r@ == utc_datetime_text(secs as int),
{
    match chrono::DateTime::from_timestamp(secs as i64, 0) {
        Some(t) => t.format("%Y-%m-%dT%H:%M:%S%z").to_string(),
        None => String::new(),
    }
}

/// Relies on chrono-tz's `FromStr` for `Tz`: whether its zone table has the
/// name; "UTC" is in that table.
#[verifier::external_body]
pub(crate) fn is_known_timezone(name: &str) -> (r: bool)
    ensures
        r == timezone_known(name@),
        name@ == "UTC"@ ==> r,
{
    name.parse::<chrono_tz::Tz>().is_ok()
}

/// Relies on chrono-tz's `FromStr` for `Tz` and chrono's `with_timezone` and
/// `format`: the text depends on the second and the zone name alone.
#[verifier::external_body]
fn zoned_datetime_string(secs: u64, zone: &str) -> (r: String)
    requires
        secs <= MAX_TIMESTAMP,
        timezone_known(zone@),
    ensures
        r@ == zoned_datetime_text(secs as int, zone@),
{
    match (zone.parse::<chrono_tz::Tz>(), chrono::DateTime::from_timestamp(secs as i64, 0)) {
        (Ok(tz), Some(t)) => t.with_timezone(&tz).format("%Y-%m-%d %H:%M:%S %Z").to_string(),
        _ => String::new(),
    }
}

/// Elapsed non-leap seconds since the UNIX epoch.
#[derive(Debug, Clone, Copy, PartialEq, Eq, Structural, Hash, PartialOrd, Ord)]
pub struct UnixTime {
    secs: u64,
}

impl View for UnixTime {
    type V = nat;

    closed spec fn view(&self) -> nat {
        self.secs as nat
    }
}

impl UnixTime {
    pub fn new(secs: u64) -> (r: Self)
        ensures
            r@ == secs,
    {
        UnixTime { secs }
    }

    /// The instant in UTC, in ISO-8601 form with a numeric offset.
    pub fn to_utc_datetime_string(&self) -> (r: String)
        requires
            self@ <= MAX_TIMESTAMP,
        ensures
            r@ == utc_datetime_text(self@ as int),
    {
        utc_datetime_string(self.secs)
    }

    /// The instant as a wall-clock time in the named zone, with the zone's
    /// abbreviation.
    pub fn default_format_in_timezone(&self, zone: &str) -> (r: String)
        requires
            self@ <= MAX_TIMESTAMP,
            timezone_known(zone@),
        ensures
            r@ == zoned_datetime_text(self@ as int, zone@),
    {
        zoned_datetime_string(self.secs, zone)
    }
}

impl From<u64> for UnixTime {
    fn from(secs: u64) -> (r: Self) {
        UnixTime { secs }
    }
}

impl vstd::std_specs::convert::FromSpecImpl<u64> for UnixTime {
    open spec fn obeys_from_spec() -> bool {
        true
    }

    closed spec fn from_spec(v: u64) -> Self {
        UnixTime { secs: v }
    }
}

impl From<UnixTime> for u64 {
    fn from(t: UnixTime) -> (r: u64) {
        t.secs
    }
}

impl vstd::std_specs::convert::FromSpecImpl<UnixTime> for u64 {
    open spec fn obeys_from_spec() -> bool {
        true
    }

    closed spec fn from_spec(v: UnixTime) -> u64 {
        v.secs
    }
}

} // verus!
