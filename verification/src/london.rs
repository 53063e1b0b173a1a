use vstd::prelude::*;

verus! {

/// Earliest Unix timestamp (in seconds) this library accepts. Comfortably
/// inside the range that chrono can represent, which reaches to roughly
/// 262,000 years either side of the common era.
pub const MIN_SECS: i64 = -8_000_000_000_000;

/// Latest Unix timestamp (in seconds) this library accepts.
pub const MAX_SECS: i64 = 8_000_000_000_000;

/// An absolute, zone-independent point in time: seconds since the Unix epoch.
#[derive(Clone, Copy, PartialEq, Eq, Structural, Debug)]
pub struct Instant {
    pub secs: i64,
}

impl Instant {
    /// An instant the announcer accepts: both it and the instant one hour
    /// earlier stay inside the range the timezone lookup can localize.
    pub open spec fn representable(self) -> bool {
        MIN_SECS <= self.secs <= MAX_SECS
    }

    /// Wraps a Unix timestamp, refusing one outside the representable range.
    pub fn from_unix_seconds(secs: i64) -> (r: Option<Instant>)
        ensures
            r is Some <==> MIN_SECS <= secs <= MAX_SECS,
            r matches Some(i) ==> i.secs == secs && i.representable(),
    {
        if MIN_SECS <= secs && secs <= MAX_SECS {
            Some(Instant { secs })
        } else {
            None
        }
    }
}

/// The civil hour shown on a London wall clock at the given Unix timestamp.
/// Fixed by the Europe/London rule table that chrono_tz carries: a function
/// of the timestamp alone.
pub uninterp spec fn london_hour(utc_secs: int) -> int;

/// Relies on chrono_tz::Europe::London through chrono's
/// TimeZone::from_utc_datetime, and on chrono's Timelike::hour, which is
/// documented to return the hour number from 0 to 23. The lookup consults a
/// fixed rule table, so the result depends on the timestamp alone.
#[verifier::external_body]
pub(crate) fn london_hour_at(utc_secs: i64) -> (h: u8)
    requires
        MIN_SECS - 3600 <= utc_secs <= MAX_SECS,
    ensures
        h as int == london_hour(utc_secs as int),
        h < 24,
{
    let dt = chrono::DateTime::<chrono::Utc>::from_timestamp(utc_secs, 0).unwrap();
    let uk = chrono::TimeZone::from_utc_datetime(&chrono_tz::Europe::London, &dt.naive_utc());
    chrono::Timelike::hour(&uk.time()) as u8
}

} // verus!
