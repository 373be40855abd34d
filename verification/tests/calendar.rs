use catenary::calendar::{
    datetime_in_service, make_weekdays, Calendar, CalendarDate, CalendarUnified, Exception,
    GeneralCalendar, ServiceDate, Weekday,
};
use catenary::gtfs_schedule_protobuf::Frequency;
use catenary::service_ranges::{
    find_service_ranges, try_find_service_ranges, TimeSpan, TripToFindScheduleFor, UtcInstant,
};
use std::collections::BTreeMap;

fn date(y: i32, m: u32, d: u32) -> ServiceDate {
    ServiceDate::from_ymd(y, m, d).unwrap()
}

fn august_mondays() -> CalendarUnified {
    CalendarUnified {
        id: "a".to_string(),
        general_calendar: Some(GeneralCalendar {
            days: vec![Weekday::Mon],
            start_date: date(2024, 8, 1),
            end_date: date(2024, 8, 31),
        }),
        exceptions: None,
    }
}

const NANOS: i128 = 1_000_000_000;

fn utc(secs: i64) -> UtcInstant {
    UtcInstant { nanos: secs as i128 * NANOS }
}

fn trip(timezone: &str, frequency: Option<Vec<Frequency>>) -> TripToFindScheduleFor {
    TripToFindScheduleFor {
        trip_id: "11499201".to_string(),
        chateau: "orangecountytransportationauthority".to_string(),
        timezone: timezone.to_string(),
        time_since_start_of_service_date: TimeSpan { nanos: 0 },
        frequency,
        itinerary_id: "9936372064990961207".to_string(),
        direction_id: "0".to_string(),
    }
}

#[test]
fn test_date() {
    let calendar = august_mondays();
    let date = date(2024, 8, 26);
    assert!(datetime_in_service(&calendar, date));
    let trip_instance = trip("UTC", None);
    assert_eq!(trip_instance.trip_id, "11499201");
}

#[test]
fn day_numbers_follow_chrono() {
    assert_eq!(ServiceDate::from_ymd(1, 1, 1).unwrap().days_from_ce, 1);
    assert_eq!(ServiceDate::from_ymd(1970, 1, 1).unwrap().days_from_ce, 719_163);
    assert!(ServiceDate::from_ymd(2024, 2, 30).is_none());
    assert!(ServiceDate::from_ymd(2024, 13, 1).is_none());
}

#[test]
fn weekdays_of_known_dates() {
    assert_eq!(date(1, 1, 1).weekday(), Weekday::Mon);
    assert_eq!(date(2024, 8, 26).weekday(), Weekday::Mon);
    assert_eq!(date(2024, 8, 31).weekday(), Weekday::Sat);
    assert_eq!(date(1970, 1, 1).weekday(), Weekday::Thu);
    assert_eq!(date(0, 12, 31).weekday(), Weekday::Sun);
    assert_eq!(date(-1, 1, 1).weekday(), Weekday::Fri);
}

#[test]
fn weekly_pattern_bounds_and_days() {
    let calendar = august_mondays();
    assert!(datetime_in_service(&calendar, date(2024, 8, 5)));
    assert!(!datetime_in_service(&calendar, date(2024, 8, 27)));
    assert!(!datetime_in_service(&calendar, date(2024, 7, 29)));
    assert!(!datetime_in_service(&calendar, date(2024, 9, 2)));
}

#[test]
fn exceptions_override_the_weekly_pattern() {
    let mut exceptions = BTreeMap::new();
    exceptions.insert(date(2024, 8, 26).days_from_ce, Exception::Deleted);
    exceptions.insert(date(2024, 8, 27).days_from_ce, Exception::Added);
    let mut calendar = august_mondays();
    calendar.exceptions = Some(exceptions);
    assert!(!datetime_in_service(&calendar, date(2024, 8, 26)));
    assert!(datetime_in_service(&calendar, date(2024, 8, 27)));
    assert!(datetime_in_service(&calendar, date(2024, 8, 19)));
}

#[test]
fn service_without_pattern_runs_only_on_added_dates() {
    let added = CalendarDate {
        service_id: "holiday".to_string(),
        gtfs_date: date(2024, 12, 25),
        exception_type: 1,
    };
    let c = CalendarUnified::empty_exception_from_calendar_date(&added);
    assert_eq!(c.id, "holiday");
    assert!(c.general_calendar.is_none());
    assert!(datetime_in_service(&c, date(2024, 12, 25)));
    assert!(!datetime_in_service(&c, date(2024, 12, 26)));

    let deleted = CalendarDate { exception_type: 2, ..added };
    let c = CalendarUnified::empty_exception_from_calendar_date(&deleted);
    assert!(!datetime_in_service(&c, date(2024, 12, 25)));
}

#[test]
fn weekdays_from_flags() {
    let calendar = Calendar {
        monday: true,
        tuesday: false,
        wednesday: true,
        thursday: false,
        friday: false,
        saturday: false,
        sunday: true,
    };
    assert_eq!(make_weekdays(&calendar), vec![Weekday::Mon, Weekday::Wed, Weekday::Sun]);
    let none = Calendar { monday: false, wednesday: false, sunday: false, ..calendar };
    assert!(make_weekdays(&none).is_empty());
}

#[test]
fn service_ranges_in_utc() {
    let calendar = august_mondays();
    // 2024-08-26T12:00:00Z
    let input = utc(1_724_673_600);
    let day = TimeSpan { nanos: 86_400 * NANOS };
    let ranges = find_service_ranges(&calendar, &trip("UTC", None), input, day, day);
    assert_eq!(ranges.len(), 1);
    assert_eq!(ranges[0].0, date(2024, 8, 26));
    // 2024-08-26T00:00:00Z
    assert_eq!(ranges[0].1.instant, utc(1_724_630_400));
    assert_eq!(ranges[0].1.timezone, "UTC");
}

#[test]
fn service_ranges_in_a_local_zone() {
    let calendar = august_mondays();
    let input = utc(1_724_673_600);
    let day = TimeSpan { nanos: 86_400 * NANOS };
    let ranges = find_service_ranges(&calendar, &trip("America/Los_Angeles", None), input, day, day);
    assert_eq!(ranges.len(), 1);
    assert_eq!(ranges[0].0, date(2024, 8, 26));
    // local noon 2024-08-26T12:00-07:00 less twelve hours = 2024-08-26T07:00:00Z
    assert_eq!(ranges[0].1.instant, utc(1_724_655_600));
}

#[test]
fn frequencies_widen_the_window() {
    let calendar = august_mondays();
    // 2024-08-27T12:00:00Z, a Tuesday, looking back one hour only
    let input = utc(1_724_760_000);
    let hour = TimeSpan { nanos: 3_600 * NANOS };
    let none = find_service_ranges(&calendar, &trip("UTC", None), input, hour, hour);
    assert!(none.is_empty());
    let freq = vec![
        Frequency { start_time: 0, end_time: 3_600, headway_secs: 600, exact_times: None },
        Frequency { start_time: 3_600, end_time: 100_000, headway_secs: 600, exact_times: None },
    ];
    let ranges = find_service_ranges(&calendar, &trip("UTC", Some(freq)), input, hour, hour);
    assert_eq!(ranges.len(), 1);
    assert_eq!(ranges[0].0, date(2024, 8, 26));
}

#[test]
fn undefined_searches_give_none() {
    let calendar = august_mondays();
    let input = utc(1_724_673_600);
    let day = TimeSpan { nanos: 86_400 * NANOS };
    assert!(try_find_service_ranges(&calendar, &trip("Not/AZone", None), input, day, day).is_none());
    assert!(try_find_service_ranges(&calendar, &trip("UTC", Some(vec![])), input, day, day).is_none());
    let far = UtcInstant { nanos: i128::MAX };
    assert!(try_find_service_ranges(&calendar, &trip("UTC", None), far, day, day).is_none());
    assert!(try_find_service_ranges(&calendar, &trip("UTC", None), input, day, day).is_some());
}

#[test]
fn weekly_service_from_calendar_flags() {
    let flags = Calendar {
        monday: false,
        tuesday: true,
        wednesday: false,
        thursday: false,
        friday: false,
        saturday: true,
        sunday: false,
    };
    let service = CalendarUnified {
        id: "weekly".to_string(),
        general_calendar: Some(GeneralCalendar {
            days: make_weekdays(&flags),
            start_date: date(2024, 8, 1),
            end_date: date(2024, 8, 31),
        }),
        exceptions: None,
    };
    assert!(datetime_in_service(&service, date(2024, 8, 27)));
    assert!(datetime_in_service(&service, date(2024, 8, 31)));
    assert!(!datetime_in_service(&service, date(2024, 8, 26)));
    assert!(!datetime_in_service(&service, date(2024, 9, 3)));
}
