//! The service days of a trip that can be running around a given instant.
use chrono::{DateTime, Datelike, NaiveDate, Offset, TimeZone};
use chrono_tz::Tz;
use vstd::prelude::*;

use crate::calendar::{datetime_in_service, runs_on, CalendarUnified, ServiceDate};
use crate::gtfs_schedule_protobuf::Frequency;

verus! {

/// An instant, as nanoseconds since 1970-01-01T00:00:00Z.
#[derive(Clone, Copy, Debug, PartialEq, Eq, Structural)]
pub struct UtcInstant {
    pub nanos: i128,
}

/// A signed span of time, in nanoseconds.
#[derive(Clone, Copy, Debug, PartialEq, Eq, Structural)]
pub struct TimeSpan {
    pub nanos: i128,
}

/// An instant together with the time zone (an IANA name) in which it is shown.
#[derive(Clone, Debug)]
pub struct ZonedInstant {
    pub instant: UtcInstant,
    pub timezone: String,
}

/// A trip whose service days are sought. `timezone` is the IANA name of the zone in which
/// its service days are counted.
#[derive(Clone, Debug)]
pub struct TripToFindScheduleFor {
    pub trip_id: String,
    pub chateau: String,
    pub timezone: String,
    pub time_since_start_of_service_date: TimeSpan,
    pub frequency: Option<Vec<Frequency>>,
    pub itinerary_id: String,
    pub direction_id: String,
}

/// The day number of chrono's first date, January 1 of year -262143 (`NaiveDate::MIN`).
pub open spec fn first_date_days() -> int {
    -95_746_129
}

/// The day number of chrono's last date, December 31 of year 262142 (`NaiveDate::MAX`).
pub open spec fn last_date_days() -> int {
    95_745_399
}

/// The day number of 1970-01-01, the day of the Unix epoch.
pub open spec fn unix_epoch_day() -> int {
    719_163
}

/// Nanoseconds in a day.
pub open spec fn nanos_per_day() -> int {
    86_400_000_000_000
}

/// Whether day number `days` is a date that chrono represents.
pub open spec fn date_in_range(days: int) -> bool {
    first_date_days() <= days <= last_date_days()
}

/// The local date (as a day number) in the zone named `timezone` of the instant `nanos`
/// nanoseconds after the Unix epoch, as chrono and chrono-tz compute it.
pub uninterp spec fn spec_local_date(timezone: Seq<char>, nanos: int) -> Option<int>;

/// The instant (nanoseconds after the Unix epoch) at which the date of day number `days`
/// reaches the local time `hour`:`min`:`sec` in the zone named `timezone`, when that local
/// time occurs exactly once, as chrono and chrono-tz compute it.
pub uninterp spec fn spec_local_time(
    timezone: Seq<char>,
    days: int,
    hour: int,
    min: int,
    sec: int,
) -> Option<int>;

/// Calls `chrono::DateTime::<Utc>::from_timestamp`: whether the instant `secs` seconds and
/// `nanos` nanoseconds after the Unix epoch lies in chrono's range. chrono's source computes
/// the day number of the instant (the seconds divided by 86,400, rounded down, plus the day
/// number of 1970-01-01) and accepts it when that day lies between `NaiveDate::MIN` and
/// `NaiveDate::MAX`; with fewer than 10^9 nanoseconds the time of day is always accepted.
#[verifier::external_body]
fn chrono_utc_representable(secs: i64, nanos: u32) -> (r: bool)
    requires
        nanos < 1_000_000_000,
    ensures
        r == date_in_range((secs * 1_000_000_000 + nanos) / nanos_per_day() + unix_epoch_day()),
{
    DateTime::from_timestamp(secs, nanos).is_some()
}

/// Calls `chrono_tz::Tz::from_str`, `chrono::DateTime::<Utc>::from_timestamp`,
/// `DateTime::with_timezone` and `NaiveDateTime::checked_add_offset`: the local date, as a day
/// number, of an instant in the named zone; `None` when the name is not a zone of chrono-tz or
/// the instant or its local time lies outside chrono's range. The contract names the result.
#[verifier::external_body]
fn chrono_local_date(timezone: &str, secs: i64, nanos: u32) -> (r: Option<i32>)
    requires
        nanos < 1_000_000_000,
    ensures
        r is None <==> spec_local_date(timezone@, secs * 1_000_000_000 + nanos) is None,
        r matches Some(d) ==> spec_local_date(timezone@, secs * 1_000_000_000 + nanos) == Some(
            d as int,
        ),
{
    let tz: Tz = timezone.parse().ok()?;
    let utc = DateTime::from_timestamp(secs, nanos)?;
    let offset = utc.with_timezone(&tz).offset().fix();
    let local = utc.naive_utc().checked_add_offset(offset)?;
    Some(local.date().num_days_from_ce())
}

/// Calls `chrono_tz::Tz::from_str`, `NaiveDate::from_num_days_from_ce_opt`,
/// `NaiveDate::and_hms_opt` and `NaiveDateTime::and_local_timezone(..).single()`: the instant,
/// as seconds and nanoseconds after the Unix epoch, at which the date reaches the given local
/// time of day in the named zone; `None` when that local time does not occur exactly once (or
/// the zone, date or time is invalid). The contract names the result.
#[verifier::external_body]
fn chrono_local_time(timezone: &str, days: i32, hour: u32, min: u32, sec: u32) -> (r: Option<
    (i64, u32),
>)
    ensures
        r is None <==> spec_local_time(timezone@, days as int, hour as int, min as int, sec as int)
            is None,
        r matches Some(p) ==> p.1 < 1_000_000_000 && spec_local_time(
            timezone@,
            days as int,
            hour as int,
            min as int,
            sec as int,
        ) == Some(p.0 * 1_000_000_000 + p.1),
{
    let tz: Tz = timezone.parse().ok()?;
    let date = NaiveDate::from_num_days_from_ce_opt(days)?;
    let local = date.and_hms_opt(hour, min, sec)?.and_local_timezone(tz).single()?;
    Some((local.timestamp(), local.timestamp_subsec_nanos()))
}

/// Calls `NaiveDate::from_num_days_from_ce_opt` and `NaiveDate::succ_opt`: the day number of
/// the next date, which chrono documents as the next calendar date. chrono's source accepts a
/// day number between `NaiveDate::MIN` and `NaiveDate::MAX` and has no successor for the last.
#[verifier::external_body]
fn chrono_date_successor(days: i32) -> (r: Option<i32>)
    ensures
        r is Some <==> first_date_days() <= days < last_date_days(),
        r matches Some(n) ==> n == days + 1,
{
    let next = NaiveDate::from_num_days_from_ce_opt(days)?.succ_opt()?;
    Some(next.num_days_from_ce())
}

/// Nanoseconds in a second.
pub const NANOS_PER_SEC: i128 = 1_000_000_000;

/// A bound on the instants chrono represents: 10^13 seconds on each side of the Unix epoch.
pub open spec fn utc_bound() -> int {
    10_000_000_000_000_000_000_000
}

/// Whether chrono represents the instant `nanos` nanoseconds after the Unix epoch: whether
/// the day on which it falls is a date that chrono represents.
pub open spec fn representable(nanos: int) -> bool {
    date_in_range(nanos / nanos_per_day() + unix_epoch_day())
}

/// An instant that chrono represents lies within `utc_bound()` of the Unix epoch.
proof fn lemma_representable_bounded(v: int)
    requires
        representable(v),
    ensures
        -utc_bound() <= v <= utc_bound(),
{
    let q = v / nanos_per_day();
    assert(q * nanos_per_day() <= v < q * nanos_per_day() + nanos_per_day()) by (nonlinear_arith)
        requires
            q == v / 86_400_000_000_000,
    ;
    assert(-96_465_292 <= q <= 95_026_236);
    assert(-utc_bound() <= v <= utc_bound()) by (nonlinear_arith)
        requires
            q * 86_400_000_000_000 <= v < q * 86_400_000_000_000 + 86_400_000_000_000,
            -96_465_292 <= q <= 95_026_236,
    ;
}

/// Splits an instant into whole seconds (rounded down) and the nanoseconds left over.
fn split_nanos(v: i128) -> (r: (i64, u32))
    requires
        -utc_bound() <= v <= utc_bound(),
    ensures
        r.1 < 1_000_000_000,
        r.0 * 1_000_000_000 + r.1 == v,
{
    let q: i128 = if v >= 0 {
        v / NANOS_PER_SEC
    } else {
        -((-v + (NANOS_PER_SEC - 1)) / NANOS_PER_SEC)
    };
    let rem: i128 = v - q * NANOS_PER_SEC;
    assert(0 <= rem < 1_000_000_000 && -10_000_000_000_000 <= q <= 10_000_000_000_000)
        by (nonlinear_arith)
        requires
            -10_000_000_000_000_000_000_000 <= v <= 10_000_000_000_000_000_000_000,
            v >= 0 ==> q == v / 1_000_000_000,
            v < 0 ==> q == -((-v + 999_999_999) / 1_000_000_000),
            rem == v - q * 1_000_000_000,
    ;
    (q as i64, rem as u32)
}

/// Whether chrono represents the instant `v` nanoseconds after the Unix epoch.
fn is_representable(v: i128) -> (b: bool)
    ensures
        b == representable(v as int),
{
    if v < -10_000_000_000_000_000_000_000 || v > 10_000_000_000_000_000_000_000 {
        proof {
            if representable(v as int) {
                lemma_representable_bounded(v as int);
            }
        }
        false
    } else {
        let (secs, nanos) = split_nanos(v);
        chrono_utc_representable(secs, nanos)
    }
}

/// The largest end time among `s`, or 0 for none.
pub open spec fn max_end_time(s: Seq<Frequency>) -> int
    decreases s.len(),
{
    if s.len() == 0 {
        0
    } else {
        let m = max_end_time(s.drop_last());
        if s.last().end_time > m {
            s.last().end_time as int
        } else {
            m
        }
    }
}

/// How far before its service day a trip may still be running, in seconds: the latest end
/// of its frequencies, or 0 for a trip without frequencies.
pub open spec fn lookback_secs(trip: TripToFindScheduleFor) -> int {
    match trip.frequency {
        Some(v) => max_end_time(v@),
        None => 0,
    }
}

/// The instant from which service days are sought, in nanoseconds.
pub open spec fn window_start(
    trip: TripToFindScheduleFor,
    input: UtcInstant,
    back: TimeSpan,
) -> int {
    input.nanos - back.nanos - trip.time_since_start_of_service_date.nanos - lookback_secs(trip)
        * 1_000_000_000
}

/// The instant up to which service days are sought, in nanoseconds.
pub open spec fn window_end(trip: TripToFindScheduleFor, input: UtcInstant, forward: TimeSpan) -> int {
    input.nanos + forward.nanos - trip.time_since_start_of_service_date.nanos
}

/// Whether every instant that the computation of the window passes through lies in chrono's range.
pub open spec fn window_representable(
    trip: TripToFindScheduleFor,
    input: UtcInstant,
    back: TimeSpan,
    forward: TimeSpan,
) -> bool {
    let since = trip.time_since_start_of_service_date.nanos;
    &&& representable(input.nanos - back.nanos)
    &&& representable(input.nanos - back.nanos - since)
    &&& representable(window_start(trip, input, back))
    &&& representable(input.nanos + forward.nanos)
    &&& representable(window_end(trip, input, forward))
}

/// Twelve hours, in nanoseconds.
pub open spec fn half_day_nanos() -> int {
    43_200_000_000_000
}

/// Local noon of the date of day number `d` in the zone named `tz`, when it occurs exactly once.
pub open spec fn local_noon(tz: Seq<char>, d: int) -> Option<int> {
    spec_local_time(tz, d, 12, 0, 0)
}

/// The start of the service day of day number `d` in the zone named `tz`: twelve hours
/// before local noon.
pub open spec fn service_day_start(tz: Seq<char>, d: int) -> int {
    local_noon(tz, d)->0 - half_day_nanos()
}

/// Whether day `d` of the window can be stepped over and, when the service runs on it,
/// its service day start is defined and representable.
pub open spec fn day_ok(service: CalendarUnified, tz: Seq<char>, d: int) -> bool {
    &&& first_date_days() <= d < last_date_days()
    &&& runs_on(service, d) ==> {
        &&& local_noon(tz, d) is Some
        &&& representable(service_day_start(tz, d))
    }
}

/// The days from `first` up to `stop` (excluded) on which the service runs, each paired
/// with the start of its service day, in increasing order.
pub open spec fn service_starts(service: CalendarUnified, tz: Seq<char>, first: int, stop: int) -> Seq<
    (int, int),
>
    decreases stop - first,
{
    if stop <= first {
        Seq::empty()
    } else {
        let earlier = service_starts(service, tz, first, stop - 1);
        if runs_on(service, stop - 1) {
            earlier.push((stop - 1, service_day_start(tz, stop - 1)))
        } else {
            earlier
        }
    }
}

/// The first day of the window, in the trip's zone.
pub open spec fn first_day(trip: TripToFindScheduleFor, input: UtcInstant, back: TimeSpan) -> int {
    spec_local_date(trip.timezone@, window_start(trip, input, back))->0
}

/// The last day of the window, in the trip's zone.
pub open spec fn last_day(trip: TripToFindScheduleFor, input: UtcInstant, forward: TimeSpan) -> int {
    spec_local_date(trip.timezone@, window_end(trip, input, forward))->0
}

/// Whether the search is defined: the frequencies, if present, are not empty, every instant
/// computed lies in chrono's range, both ends of the window have a local date, and every day
/// of the window can be stepped over and has a service day start where the service runs.
pub open spec fn service_ranges_defined(
    service: CalendarUnified,
    trip: TripToFindScheduleFor,
    input: UtcInstant,
    back: TimeSpan,
    forward: TimeSpan,
) -> bool {
    &&& (trip.frequency matches Some(v) ==> v@.len() > 0)
    &&& window_representable(trip, input, back, forward)
    &&& spec_local_date(trip.timezone@, window_start(trip, input, back)) is Some
    &&& spec_local_date(trip.timezone@, window_end(trip, input, forward)) is Some
    &&& forall|d: int|
        first_day(trip, input, back) <= d <= last_day(trip, input, forward) ==> day_ok(
            service,
            trip.timezone@,
            d,
        )
}

/// The service days of the window on which the service runs, each with the start of its
/// service day, in increasing order.
pub open spec fn service_ranges(
    service: CalendarUnified,
    trip: TripToFindScheduleFor,
    input: UtcInstant,
    back: TimeSpan,
    forward: TimeSpan,
) -> Seq<(int, int)> {
    service_starts(
        service,
        trip.timezone@,
        first_day(trip, input, back),
        last_day(trip, input, forward) + 1,
    )
}

/// The plain view of a result: day numbers and service day starts in nanoseconds.
pub open spec fn ranges_view(v: Seq<(ServiceDate, ZonedInstant)>) -> Seq<(int, int)> {
    v.map_values(|p: (ServiceDate, ZonedInstant)| (p.0.days_from_ce as int, p.1.instant.nanos as int))
}

/// Every day that `service_starts` lists lies in the range searched and is a day the service
/// runs on, paired with the start of its service day; the days increase strictly.
pub proof fn lemma_service_starts_properties(
    service: CalendarUnified,
    tz: Seq<char>,
    first: int,
    stop: int,
)
    ensures
        forall|k: int|
            0 <= k < service_starts(service, tz, first, stop).len() ==> {
                let p = #[trigger] service_starts(service, tz, first, stop)[k];
                &&& first <= p.0 < stop
                &&& runs_on(service, p.0)
                &&& p.1 == service_day_start(tz, p.0)
            },
        forall|k: int, l: int|
            0 <= k < l < service_starts(service, tz, first, stop).len() ==> (#[trigger] service_starts(
                service,
                tz,
                first,
                stop,
            )[k]).0 < (#[trigger] service_starts(service, tz, first, stop)[l]).0,
    decreases stop - first,
{
    if stop > first {
        lemma_service_starts_properties(service, tz, first, stop - 1);
        let earlier = service_starts(service, tz, first, stop - 1);
        let all = service_starts(service, tz, first, stop);
        assert forall|k: int| 0 <= k < all.len() implies {
            let p = #[trigger] all[k];
            &&& first <= p.0 < stop
            &&& runs_on(service, p.0)
            &&& p.1 == service_day_start(tz, p.0)
        } by {
            if k < earlier.len() {
                assert(all[k] == earlier[k]);
            }
        }
        assert forall|k: int, l: int| 0 <= k < l < all.len() implies (#[trigger] all[k]).0 < (
        #[trigger] all[l]).0 by {
            assert(all[k] == earlier[k]);
            if l < earlier.len() {
                assert(all[l] == earlier[l]);
            }
        }
    }
}

/// A day lies among `service_starts` exactly when it is in the range searched and the
/// service runs on it.
pub proof fn lemma_service_starts_complete(
    service: CalendarUnified,
    tz: Seq<char>,
    first: int,
    stop: int,
    d: int,
)
    ensures
        (exists|k: int|
            0 <= k < service_starts(service, tz, first, stop).len() && (#[trigger] service_starts(
                service,
                tz,
                first,
                stop,
            )[k]).0 == d) <==> (first <= d < stop && runs_on(service, d)),
    decreases stop - first,
{
    lemma_service_starts_properties(service, tz, first, stop);
    if stop > first {
        lemma_service_starts_complete(service, tz, first, stop - 1, d);
        let earlier = service_starts(service, tz, first, stop - 1);
        let all = service_starts(service, tz, first, stop);
        if first <= d < stop - 1 && runs_on(service, d) {
            let k = choose|k: int| 0 <= k < earlier.len() && (#[trigger] earlier[k]).0 == d;
            assert(all[k] == earlier[k]);
        }
        if d == stop - 1 && runs_on(service, d) {
            assert(all[all.len() - 1].0 == d);
        }
        if exists|k: int| 0 <= k < all.len() && (#[trigger] all[k]).0 == d {
            let k = choose|k: int| 0 <= k < all.len() && (#[trigger] all[k]).0 == d;
            if k < earlier.len() {
                assert(earlier[k] == all[k]);
            }
        }
    }
}

/// The days listed from `a` up to `c` are those from `a` up to `b` followed by those from `b`
/// up to `c`.
pub proof fn lemma_service_starts_split(
    service: CalendarUnified,
    tz: Seq<char>,
    a: int,
    b: int,
    c: int,
)
    requires
        a <= b <= c,
    ensures
        service_starts(service, tz, a, c) == service_starts(service, tz, a, b) + service_starts(
            service,
            tz,
            b,
            c,
        ),
    decreases c - b,
{
    if c == b {
        assert(service_starts(service, tz, a, b) + service_starts(service, tz, b, c) =~= service_starts(
            service,
            tz,
            a,
            b,
        ));
    } else {
        lemma_service_starts_split(service, tz, a, b, c - 1);
        let left = service_starts(service, tz, a, b);
        let right = service_starts(service, tz, b, c - 1);
        if runs_on(service, c - 1) {
            assert((left + right).push((c - 1, service_day_start(tz, c - 1))) =~= left + right.push(
                (c - 1, service_day_start(tz, c - 1)),
            ));
        }
    }
}

/// Widening the search window only adds days around those found before: the days found
/// for the narrower window appear, as one contiguous run, among those found for the wider one.
/// This holds where the wider window's local dates enclose the narrower one's; a zone that
/// turns its clocks back across midnight can break that, and such inputs are left out.
pub proof fn lemma_wider_window_extends(
    service: CalendarUnified,
    trip: TripToFindScheduleFor,
    input: UtcInstant,
    back1: TimeSpan,
    forward1: TimeSpan,
    back2: TimeSpan,
    forward2: TimeSpan,
)
    requires
        back1.nanos <= back2.nanos,
        forward1.nanos <= forward2.nanos,
        first_day(trip, input, back2) <= first_day(trip, input, back1),
        last_day(trip, input, forward1) <= last_day(trip, input, forward2),
    ensures
        exists|before: Seq<(int, int)>, after: Seq<(int, int)>|
            service_ranges(service, trip, input, back2, forward2) == before + service_ranges(
                service,
                trip,
                input,
                back1,
                forward1,
            ) + after,
{
    let tz = trip.timezone@;
    let f1 = first_day(trip, input, back1);
    let f2 = first_day(trip, input, back2);
    let s1 = last_day(trip, input, forward1) + 1;
    let s2 = last_day(trip, input, forward2) + 1;
    let wide = service_ranges(service, trip, input, back2, forward2);
    let narrow = service_ranges(service, trip, input, back1, forward1);
    if s1 <= f1 {
        assert(narrow =~= Seq::<(int, int)>::empty());
        assert(wide == wide + narrow + Seq::<(int, int)>::empty());
    } else {
        lemma_service_starts_split(service, tz, f2, f1, s2);
        lemma_service_starts_split(service, tz, f1, s1, s2);
        let before = service_starts(service, tz, f2, f1);
        let after = service_starts(service, tz, s1, s2);
        assert(wide =~= before + narrow + after);
    }
}

/// A trip without frequencies looks back no further than its own start; a trip with
/// frequencies looks back by the latest end time among them.
pub proof fn lemma_lookback_is_latest_end(trip: TripToFindScheduleFor)
    ensures
        match trip.frequency {
            None => lookback_secs(trip) == 0,
            Some(v) => v@.len() > 0 ==> {
                &&& exists|i: int| 0 <= i < v@.len() && lookback_secs(trip) == v@[i].end_time
                &&& forall|i: int| 0 <= i < v@.len() ==> v@[i].end_time <= lookback_secs(trip)
            },
        },
{
    if let Some(v) = trip.frequency {
        lemma_max_end_time(v@);
    }
}

proof fn lemma_max_end_time(s: Seq<Frequency>)
    ensures
        forall|i: int| 0 <= i < s.len() ==> s[i].end_time <= max_end_time(s),
        s.len() > 0 ==> exists|i: int| 0 <= i < s.len() && max_end_time(s) == s[i].end_time,
    decreases s.len(),
{
    if s.len() > 0 {
        let t = s.drop_last();
        lemma_max_end_time(t);
        assert forall|i: int| 0 <= i < s.len() implies s[i].end_time <= max_end_time(s) by {
            if i < t.len() {
                assert(s[i] == t[i]);
            }
        }
        if t.len() > 0 && max_end_time(t) >= s.last().end_time {
            let i = choose|i: int| 0 <= i < t.len() && max_end_time(t) == t[i].end_time;
            assert(s[i] == t[i]);
        } else {
            assert(max_end_time(s) == s[s.len() - 1].end_time);
        }
    }
}

/// What a search returns, stated from its inputs. Let `first` be the local date, in the trip's
/// zone, of the instant `input − back − time_since_start_of_service_date − lookback` (the
/// lookback being the latest frequency end, in seconds, or 0), and `last` the local date of
/// `input + forward − time_since_start_of_service_date`: the window is anchored at the start
/// of the service day, so a trip running at the input is found on the day it started. The
/// result lists, in increasing order, exactly the days from `first` to `last` on which the
/// service runs, each with the instant twelve hours before that day's local noon.
pub proof fn lemma_service_ranges_window(
    service: CalendarUnified,
    trip: TripToFindScheduleFor,
    input: UtcInstant,
    back: TimeSpan,
    forward: TimeSpan,
)
    ensures
        ({
            let tz = trip.timezone@;
            let since = trip.time_since_start_of_service_date.nanos;
            let first = spec_local_date(
                tz,
                input.nanos - back.nanos - since - lookback_secs(trip) * 1_000_000_000,
            )->0;
            let last = spec_local_date(tz, input.nanos + forward.nanos - since)->0;
            let r = service_ranges(service, trip, input, back, forward);
            &&& forall|k: int|
                0 <= k < r.len() ==> {
                    &&& first <= (#[trigger] r[k]).0 <= last
                    &&& runs_on(service, r[k].0)
                    &&& r[k].1 == spec_local_time(tz, r[k].0, 12, 0, 0)->0 - 43_200_000_000_000
                }
            &&& forall|d: int|
                first <= d <= last && runs_on(service, d) ==> exists|k: int|
                    0 <= k < r.len() && (#[trigger] r[k]).0 == d
            &&& forall|k: int, l: int| 0 <= k < l < r.len() ==> (#[trigger] r[k]).0 < (#[trigger] r[l]).0
        }),
{
    let tz = trip.timezone@;
    let first = first_day(trip, input, back);
    let stop = last_day(trip, input, forward) + 1;
    lemma_service_starts_properties(service, tz, first, stop);
    let r = service_ranges(service, trip, input, back, forward);
    assert forall|d: int|
        first <= d <= stop - 1 && runs_on(service, d) implies exists|k: int|
        0 <= k < r.len() && (#[trigger] r[k]).0 == d by {
        lemma_service_starts_complete(service, tz, first, stop, d);
    }
}

fn max_frequency_end(freq: &Vec<Frequency>) -> (m: u32)
    ensures
        m == max_end_time(freq@),
{
    let mut m: u32 = 0;
    let mut i: usize = 0;
    while i < freq.len()
        invariant
            i <= freq.len(),
            m == max_end_time(freq@.take(i as int)),
        decreases freq.len() - i,
    {
        assert(freq@.take(i + 1).drop_last() == freq@.take(i as int));
        if freq[i].end_time > m {
            m = freq[i].end_time;
        }
        i = i + 1;
    }
    assert(freq@.take(i as int) == freq@);
    m
}


/// The service days of `service` on which `trip_instance` can be running between
/// `back_duration` before and `forward_duration` after `input_time`, each paired with the start
/// of its service day (local noon less twelve hours) in the trip's zone, in increasing order.
/// `None` exactly when the search is not defined (see `service_ranges_defined`).
pub fn try_find_service_ranges(
    service: &CalendarUnified,
    trip_instance: &TripToFindScheduleFor,
    input_time: UtcInstant,
    back_duration: TimeSpan,
    forward_duration: TimeSpan,
) -> (r: Option<Vec<(ServiceDate, ZonedInstant)>>)
    ensures
        r is Some <==> service_ranges_defined(
            *service,
            *trip_instance,
            input_time,
            back_duration,
            forward_duration,
        ),
        r matches Some(v) ==> ranges_view(v@) == service_ranges(
            *service,
            *trip_instance,
            input_time,
            back_duration,
            forward_duration,
        ),
        r matches Some(v) ==> forall|i: int|
            0 <= i < v@.len() ==> (#[trigger] v@[i]).1.timezone@ == trip_instance.timezone@,
{
    let ghost trip = *trip_instance;
    let ghost tz = trip_instance.timezone@;
    let additional_lookback: u32 = match &trip_instance.frequency {
        Some(freq) => {
            if freq.len() == 0 {
                return None;
            }
            max_frequency_end(freq)
        },
        None => 0,
    };
    assert(additional_lookback == lookback_secs(trip));
    let since = trip_instance.time_since_start_of_service_date.nanos;
    let start_chrono = match input_time.nanos.checked_sub(back_duration.nanos) {
        Some(v) => v,
        None => return None,
    };
    if !is_representable(start_chrono) {
        return None;
    }
    let start_less_since = match start_chrono.checked_sub(since) {
        Some(v) => v,
        None => return None,
    };
    if !is_representable(start_less_since) {
        return None;
    }
    let lookback_nanos: i128 = additional_lookback as i128 * NANOS_PER_SEC;
    let start_service = match start_less_since.checked_sub(lookback_nanos) {
        Some(v) => v,
        None => return None,
    };
    if !is_representable(start_service) {
        return None;
    }
    let end_plus_forward = match input_time.nanos.checked_add(forward_duration.nanos) {
        Some(v) => v,
        None => return None,
    };
    if !is_representable(end_plus_forward) {
        return None;
    }
    let end_chrono = match end_plus_forward.checked_sub(since) {
        Some(v) => v,
        None => return None,
    };
    if !is_representable(end_chrono) {
        return None;
    }
    assert(window_representable(trip, input_time, back_duration, forward_duration));
    let (start_secs, start_nanos) = split_nanos(start_service);
    let first = match chrono_local_date(&trip_instance.timezone, start_secs, start_nanos) {
        Some(d) => d,
        None => return None,
    };
    let (end_secs, end_nanos) = split_nanos(end_chrono);
    let last = match chrono_local_date(&trip_instance.timezone, end_secs, end_nanos) {
        Some(d) => d,
        None => return None,
    };
    assert(first == first_day(trip, input_time, back_duration));
    assert(last == last_day(trip, input_time, forward_duration));
    let mut results: Vec<(ServiceDate, ZonedInstant)> = Vec::new();
    let mut i: i32 = first;
    while i <= last
        invariant
            first <= i,
            i <= last + 1 || i == first,
            tz == trip_instance.timezone@,
            trip == *trip_instance,
            first == first_day(trip, input_time, back_duration),
            last == last_day(trip, input_time, forward_duration),
            trip.frequency matches Some(v) ==> v@.len() > 0,
            window_representable(trip, input_time, back_duration, forward_duration),
            spec_local_date(tz, window_start(trip, input_time, back_duration)) is Some,
            spec_local_date(tz, window_end(trip, input_time, forward_duration)) is Some,
            ranges_view(results@) == service_starts(*service, tz, first as int, i as int),
            forall|k: int|
                0 <= k < results@.len() ==> (#[trigger] results@[k]).1.timezone@ == tz,
            forall|d: int| first <= d < i ==> day_ok(*service, tz, d),
        decreases last + 1 - i,
    {
        let date = ServiceDate { days_from_ce: i };
        let runs = datetime_in_service(service, date);
        if runs {
            let (noon_secs, noon_nanos) = match chrono_local_time(&trip_instance.timezone, i, 12, 0, 0) {
                Some(p) => p,
                None => {
                    assert(!day_ok(*service, tz, i as int));
                    return None;
                },
            };
            let noon: i128 = noon_secs as i128 * NANOS_PER_SEC + noon_nanos as i128;
            let starting_time: i128 = noon - 43_200_000_000_000;
            assert(starting_time == service_day_start(tz, i as int));
            if !is_representable(starting_time) {
                assert(!day_ok(*service, tz, i as int));
                return None;
            }
            let entry = (
                date,
                ZonedInstant {
                    instant: UtcInstant { nanos: starting_time },
                    timezone: trip_instance.timezone.clone(),
                },
            );
            results.push(entry);
        }
        let next = match chrono_date_successor(i) {
            Some(n) => n,
            None => {
                assert(!day_ok(*service, tz, i as int));
                return None;
            },
        };
        assert(day_ok(*service, tz, i as int));
        assert(ranges_view(results@) =~= service_starts(*service, tz, first as int, i + 1));
        i = next;
    }
    Some(results)
}

/// The service days of `service` on which `trip_instance` can be running between
/// `back_duration` before and `forward_duration` after `input_time`, each paired with the start
/// of its service day in the trip's zone, in increasing order. The search must be defined
/// (see `try_find_service_ranges` for a caller that cannot know it beforehand).
pub fn find_service_ranges(
    service: &CalendarUnified,
    trip_instance: &TripToFindScheduleFor,
    input_time: UtcInstant,
    back_duration: TimeSpan,
    forward_duration: TimeSpan,
) -> (v: Vec<(ServiceDate, ZonedInstant)>)
    requires
        service_ranges_defined(*service, *trip_instance, input_time, back_duration, forward_duration),
    ensures
        ranges_view(v@) == service_ranges(
            *service,
            *trip_instance,
            input_time,
            back_duration,
            forward_duration,
        ),
        forall|i: int| 0 <= i < v@.len() ==> (#[trigger] v@[i]).1.timezone@ == trip_instance.timezone@,
{
    match try_find_service_ranges(service, trip_instance, input_time, back_duration, forward_duration) {
        Some(v) => v,
        None => Vec::new(),
    }
}

} // verus!
