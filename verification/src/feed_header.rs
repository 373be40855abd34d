//! The header of the GTFS-realtime feeds that Catenary assembles, and the clock it reads.
use std::time::{Duration, SystemTime, SystemTimeError, UNIX_EPOCH};
use vstd::prelude::*;

verus! {

#[verifier::external_type_specification]
#[verifier::external_body]
pub struct ExSystemTime(SystemTime);

#[verifier::external_type_specification]
#[verifier::external_body]
pub struct ExSystemTimeError(SystemTimeError);

/// Calls `std::time::SystemTime::now`. The result depends on the clock; nothing is stated of it.
#[verifier::external_body]
fn system_time_now() -> SystemTime {
    SystemTime::now()
}

/// Calls `SystemTime::duration_since` with `UNIX_EPOCH`: an error when `t` lies before the
/// epoch. Nothing is stated of the result, which depends on `t`, a reading of the clock.
#[verifier::external_body]
fn since_unix_epoch(t: SystemTime) -> Result<Duration, SystemTimeError> {
    t.duration_since(UNIX_EPOCH)
}

/// Calls `Duration::as_secs`: the whole seconds of `d`. Nothing is stated of the result.
#[verifier::external_body]
fn whole_seconds(d: &Duration) -> u64 {
    d.as_secs()
}

/// The time elapsed since the Unix epoch by the system clock, or `None` when the clock
/// reads a time before the epoch.
pub fn duration_since_unix_epoch() -> Option<Duration> {
    match since_unix_epoch(system_time_now()) {
        Ok(d) => Some(d),
        Err(_) => None,
    }
}

/// The header of a GTFS-realtime feed message.
#[derive(Clone, Debug)]
pub struct FeedHeader {
    pub gtfs_realtime_version: String,
    pub incrementality: Option<i32>,
    pub timestamp: Option<u64>,
}

/// The wire value of the `FULL_DATASET` incrementality of GTFS-realtime.
pub const FULL_DATASET: i32 = 0;

/// Whether `h` is the header of a full dataset of GTFS-realtime version 2.0 made at `timestamp`.
pub open spec fn is_full_dataset_header(h: FeedHeader, timestamp: u64) -> bool {
    &&& h.gtfs_realtime_version@ == "2.0"@
    &&& h.incrementality == Some(FULL_DATASET)
    &&& h.timestamp == Some(timestamp)
}

/// The header of a full dataset of GTFS-realtime version 2.0 made at `timestamp`
/// (seconds since the Unix epoch).
pub fn full_dataset_header(timestamp: u64) -> (h: FeedHeader)
    ensures
        is_full_dataset_header(h, timestamp),
{
    FeedHeader {
        gtfs_realtime_version: "2.0".to_owned(),
        incrementality: Some(FULL_DATASET),
        timestamp: Some(timestamp),
    }
}

/// The header of a full dataset of GTFS-realtime version 2.0 made now, or `None` when the
/// clock reads a time before the Unix epoch.
pub fn current_full_dataset_header() -> (h: Option<FeedHeader>)
    ensures
        h matches Some(h) ==> exists|t: u64| is_full_dataset_header(h, t),
{
    match duration_since_unix_epoch() {
        Some(d) => {
            let secs = whole_seconds(&d);
            let h = full_dataset_header(secs);
            assert(is_full_dataset_header(h, secs));
            Some(h)
        },
        None => None,
    }
}

} // verus!
