use catenary::calendar::{datetime_in_service, CalendarUnified, Exception, ServiceDate};
use catenary::service_ranges::{try_find_service_ranges, TimeSpan, TripToFindScheduleFor, UtcInstant};
use chrono::{DateTime, Datelike, NaiveDate};
use std::collections::BTreeMap;

const FIRST_DAY: i32 = -95_746_129;
const LAST_DAY: i32 = 95_745_399;
const UNIX_EPOCH_DAY: i64 = 719_163;

fn is_leap(y: i64) -> bool {
    y.rem_euclid(4) == 0 && (y.rem_euclid(100) != 0 || y.rem_euclid(400) == 0)
}

fn days_in_month(y: i64, m: i64) -> i64 {
    match m {
        2 => if is_leap(y) { 29 } else { 28 },
        4 | 6 | 9 | 11 => 30,
        _ => 31,
    }
}

fn expected_day_number(y: i64, m: i64, d: i64) -> Option<i64> {
    if !(-262_143..=262_142).contains(&y) || !(1..=12).contains(&m) || d < 1 || d > days_in_month(y, m) {
        return None;
    }
    let before = [0, 31, 59, 90, 120, 151, 181, 212, 243, 273, 304, 334][(m - 1) as usize]
        + if is_leap(y) && m > 2 { 1 } else { 0 };
    let p = y - 1;
    Some(365 * p + p.div_euclid(4) - p.div_euclid(100) + p.div_euclid(400) + before + d)
}

fn check_year(y: i32) {
    for m in 0..=13u32 {
        for d in 0..=32u32 {
            let got = ServiceDate::from_ymd(y, m, d).map(|s| s.days_from_ce as i64);
            assert_eq!(got, expected_day_number(y as i64, m as i64, d as i64), "{y}-{m}-{d}");
        }
    }
}

#[test]
fn day_numbers_match_the_gregorian_count() {
    for y in -801..=2401 {
        check_year(y);
    }
    for y in [-262_144, -262_143, -262_142, 262_141, 262_142, 262_143, i32::MIN, i32::MAX] {
        check_year(y);
    }
}

#[test]
fn chrono_range_constants() {
    assert_eq!(NaiveDate::MIN.num_days_from_ce(), FIRST_DAY);
    assert_eq!(NaiveDate::MAX.num_days_from_ce(), LAST_DAY);
    assert_eq!(NaiveDate::from_ymd_opt(1970, 1, 1).unwrap().num_days_from_ce() as i64, UNIX_EPOCH_DAY);
    for d in [FIRST_DAY - 1, FIRST_DAY, FIRST_DAY + 1, 0, 1, LAST_DAY - 1, LAST_DAY, LAST_DAY + 1] {
        let next = NaiveDate::from_num_days_from_ce_opt(d).and_then(|x| x.succ_opt());
        assert_eq!(next.is_some(), FIRST_DAY <= d && d < LAST_DAY, "{d}");
    }
    let first_sec = (FIRST_DAY as i64 - UNIX_EPOCH_DAY) * 86_400;
    let last_sec = (LAST_DAY as i64 - UNIX_EPOCH_DAY) * 86_400 + 86_399;
    assert!(DateTime::from_timestamp(first_sec, 0).is_some());
    assert!(DateTime::from_timestamp(first_sec - 1, 999_999_999).is_none());
    assert!(DateTime::from_timestamp(last_sec, 999_999_999).is_some());
    assert!(DateTime::from_timestamp(last_sec + 1, 0).is_none());
}

#[test]
fn searches_at_the_end_of_chrono_range_give_none() {
    let mut exceptions = BTreeMap::new();
    exceptions.insert(LAST_DAY - 1, Exception::Added);
    let service = CalendarUnified { id: "s".to_string(), general_calendar: None, exceptions: Some(exceptions) };
    assert!(datetime_in_service(&service, ServiceDate { days_from_ce: LAST_DAY - 1 }));
    let trip = TripToFindScheduleFor {
        trip_id: "t".to_string(),
        chateau: "c".to_string(),
        timezone: "UTC".to_string(),
        time_since_start_of_service_date: TimeSpan { nanos: 0 },
        frequency: None,
        itinerary_id: "i".to_string(),
        direction_id: "0".to_string(),
    };
    let noon_before_last = ((LAST_DAY as i64 - 1 - UNIX_EPOCH_DAY) * 86_400 + 43_200) as i128 * 1_000_000_000;
    let zero = TimeSpan { nanos: 0 };
    let found = try_find_service_ranges(&service, &trip, UtcInstant { nanos: noon_before_last }, zero, zero).unwrap();
    assert_eq!(found.len(), 1);
    assert_eq!(found[0].1.instant.nanos, noon_before_last - 43_200 * 1_000_000_000);
    let on_last = noon_before_last + 86_400 * 1_000_000_000;
    assert!(try_find_service_ranges(&service, &trip, UtcInstant { nanos: on_last }, zero, zero).is_none());
}
