//! The local clock estimate.
//!
//! The device has no battery-backed clock: a network time collaborator
//! hands in unix timestamps, and this state keeps the last one together
//! with whether any sync was ever attempted. The current time is the last
//! synced timestamp plus the seconds elapsed since that sync, both handed
//! in by the caller that owns the real time source. Turning a timestamp
//! into a local wall-clock hour is the one computation delegated to the
//! timezone database.

use vstd::prelude::*;

verus! {

/// Lowest unix timestamp (in seconds) this crate converts to a wall-clock
/// hour: the timezone conversion is total on it for every zone offset, a
/// two-day margin inside the date range the conversion supports.
pub const MIN_HOUR_TIMESTAMP: i64 = -377704944000;

/// Highest unix timestamp (in seconds) this crate converts to a wall-clock
/// hour; see [`MIN_HOUR_TIMESTAMP`].
pub const MAX_HOUR_TIMESTAMP: i64 = 253402127999;

/// The wall-clock hour (0 to 23) of a unix timestamp in the IANA zone of
/// the given name, GMT when the name is unknown. The timezone database is
/// fixed, so the hour is a function of the two arguments alone.
pub uninterp spec fn local_hour_of(timestamp: i64, zone: Seq<char>) -> u8;

/// Relies on `time_tz::timezones::get_by_name` (zone lookup, GMT fallback),
/// `time::OffsetDateTime::from_unix_timestamp` (total on the admitted
/// range), `time_tz::OffsetDateTimeExt::to_timezone` and `time`'s `hour`,
/// which its documentation bounds to `0..24`.
#[verifier::external_body]
fn zone_hour(timestamp: i64, zone: &str) -> (h: u8)
    requires
        MIN_HOUR_TIMESTAMP <= timestamp <= MAX_HOUR_TIMESTAMP,
    ensures
        h == local_hour_of(timestamp, zone@),
        h < 24,
{
    let tz = time_tz::timezones::get_by_name(zone).unwrap_or(time_tz::timezones::db::GMT);
    let utc = match time::OffsetDateTime::from_unix_timestamp(timestamp) {
        Ok(utc) => utc,
        Err(_) => return 0,
    };
    time_tz::OffsetDateTimeExt::to_timezone(&utc, tz).hour()
}

/// The clock estimate: the timestamp of the last successful sync and
/// whether any sync was ever attempted, plus the IANA zone name local hours
/// are reported in.
pub struct Clock {
    timestamp: i64,
    synced: bool,
    zone: String,
}

impl Clock {
    /// The unix timestamp the last successful sync reported (0 before one).
    pub closed spec fn spec_timestamp(&self) -> i64 {
        self.timestamp
    }

    /// Whether a sync was ever attempted. The original estimate keeps
    /// counting from 0 when the first sync attempt failed.
    pub closed spec fn spec_synced(&self) -> bool {
        self.synced
    }

    pub closed spec fn spec_zone(&self) -> Seq<char> {
        self.zone@
    }

    /// The current-time estimate: the synced timestamp plus the seconds
    /// elapsed since.
    pub open spec fn now(&self, elapsed_secs: u64) -> int {
        self.spec_timestamp() + elapsed_secs
    }

    /// A clock that never synced, reporting local hours in the named zone.
    pub fn new(zone: String) -> (c: Clock)
        ensures
            c.spec_timestamp() == 0,
            !c.spec_synced(),
            c.spec_zone() == zone@,
    {
        Clock { timestamp: 0, synced: false, zone }
    }

    /// The timestamp of the last successful sync (0 before one).
    pub fn timestamp(&self) -> (r: i64)
        ensures
            r == self.spec_timestamp(),
    {
        self.timestamp
    }

    /// Records the outcome of one sync attempt: a fetched timestamp
    /// replaces the estimate, a failed fetch (`None`) keeps the old one,
    /// and either way the clock counts as synced from now on.
    pub fn sync(&mut self, fetched: Option<i64>)
        ensures
            final(self).spec_synced(),
            final(self).spec_timestamp() == match fetched {
                Some(t) => t,
                None => old(self).spec_timestamp(),
            },
            final(self).spec_zone() == old(self).spec_zone(),
    {
        self.synced = true;
        if let Some(t) = fetched {
            self.timestamp = t;
        }
    }

    /// The current unix-seconds estimate, `None` while the clock has never
    /// synced. `elapsed_secs` is the time since the last sync attempt,
    /// measured by the caller's monotonic time source.
    pub fn get_unix_timestamp(&self, elapsed_secs: u64) -> (r: Option<i64>)
        requires
            elapsed_secs <= i64::MAX,
            self.spec_timestamp() + elapsed_secs <= i64::MAX,
        ensures
            r == if self.spec_synced() {
                Some((self.spec_timestamp() + elapsed_secs) as i64)
            } else {
                None::<i64>
            },
    {
        if self.synced {
            Some(self.timestamp + elapsed_secs as i64)
        } else {
            None
        }
    }

    /// The local wall-clock hour of the current-time estimate, in this
    /// clock's zone: `None` while the clock never synced or when the
    /// estimate leaves the range hour conversion supports.
    pub fn local_hour(&self, elapsed_secs: u64) -> (r: Option<u8>)
        requires
            elapsed_secs <= i64::MAX,
            self.spec_timestamp() + elapsed_secs <= i64::MAX,
        ensures
            r matches Some(h) ==> {
                &&& self.spec_synced()
                &&& MIN_HOUR_TIMESTAMP <= self.now(elapsed_secs) <= MAX_HOUR_TIMESTAMP
                &&& h == local_hour_of(self.now(elapsed_secs) as i64, self.spec_zone())
                &&& h < 24
            },
            r is None ==> !self.spec_synced() || !(MIN_HOUR_TIMESTAMP <= self.now(elapsed_secs)
                <= MAX_HOUR_TIMESTAMP),
    {
        match self.get_unix_timestamp(elapsed_secs) {
            Some(now) => {
                if MIN_HOUR_TIMESTAMP <= now && now <= MAX_HOUR_TIMESTAMP {
                    Some(zone_hour(now, self.zone.as_str()))
                } else {
                    None
                }
            },
            None => None,
        }
    }
}

} // verus!
