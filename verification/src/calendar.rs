//! Service calendars: which service dates a GTFS calendar runs on.
use chrono::{Datelike, NaiveDate};
use std::collections::BTreeMap;
use vstd::prelude::*;

verus! {

broadcast use {vstd::std_specs::btree::group_btree_axioms, vstd::laws_cmp::group_laws_cmp};

/// A day of the week, Monday first.
#[derive(Clone, Copy, Debug, PartialEq, Eq, Structural)]
pub enum Weekday {
    Mon,
    Tue,
    Wed,
    Thu,
    Fri,
    Sat,
    Sun,
}

/// A date of the proleptic Gregorian calendar, held as its day number:
/// January 1 of year 1 is day 1 (the numbering of `chrono::NaiveDate::num_days_from_ce`).
#[derive(Clone, Copy, Debug, PartialEq, Eq, Structural)]
pub struct ServiceDate {
    pub days_from_ce: i32,
}

/// The index of a weekday, Monday being 0 and Sunday 6.
pub open spec fn weekday_index(w: Weekday) -> int {
    match w {
        Weekday::Mon => 0,
        Weekday::Tue => 1,
        Weekday::Wed => 2,
        Weekday::Thu => 3,
        Weekday::Fri => 4,
        Weekday::Sat => 5,
        Weekday::Sun => 6,
    }
}

/// The weekday of day number `days`: day 1 (0001-01-01) is a Monday and the week has seven days.
pub open spec fn weekday_of_day(days: int) -> Weekday {
    let r = (days - 1) % 7;
    if r == 0 {
        Weekday::Mon
    } else if r == 1 {
        Weekday::Tue
    } else if r == 2 {
        Weekday::Wed
    } else if r == 3 {
        Weekday::Thu
    } else if r == 4 {
        Weekday::Fri
    } else if r == 5 {
        Weekday::Sat
    } else {
        Weekday::Sun
    }
}

impl ServiceDate {
    /// The weekday on which this date falls.
    pub fn weekday(&self) -> (w: Weekday)
        ensures
            w == weekday_of_day(self.days_from_ce as int),
    {
        let d: i64 = self.days_from_ce as i64 - 1;
        let q: i64 = if d >= 0 {
            d / 7
        } else {
            -((-d + 6) / 7)
        };
        let r: i64 = d - q * 7;
        assert(0 <= r < 7 && r == (self.days_from_ce - 1) % 7) by (nonlinear_arith)
            requires
                d == self.days_from_ce - 1,
                d >= 0 ==> q == d / 7,
                d < 0 ==> q == -((-d + 6) / 7),
                r == d - q * 7,
        ;
        if r == 0 {
            Weekday::Mon
        } else if r == 1 {
            Weekday::Tue
        } else if r == 2 {
            Weekday::Wed
        } else if r == 3 {
            Weekday::Thu
        } else if r == 4 {
            Weekday::Fri
        } else if r == 5 {
            Weekday::Sat
        } else {
            Weekday::Sun
        }
    }
}


/// Whether service was added or removed on a date (GTFS `calendar_dates.txt` exception type).
#[derive(Clone, Copy, Debug, PartialEq, Eq, Structural)]
pub enum Exception {
    Added,
    Deleted,
}

/// A weekly service pattern that holds between two dates, both included.
#[derive(Clone, Debug)]
pub struct GeneralCalendar {
    pub days: Vec<Weekday>,
    pub start_date: ServiceDate,
    pub end_date: ServiceDate,
}

/// A service: an optional weekly pattern and optional per-date exceptions,
/// keyed by the day number of their date.
#[derive(Clone, Debug)]
pub struct CalendarUnified {
    pub id: String,
    pub general_calendar: Option<GeneralCalendar>,
    pub exceptions: Option<BTreeMap<i32, Exception>>,
}

/// The weekday flags of a GTFS `calendar.txt` row.
#[derive(Clone, Copy, Debug, PartialEq, Eq, Structural)]
pub struct Calendar {
    pub monday: bool,
    pub tuesday: bool,
    pub wednesday: bool,
    pub thursday: bool,
    pub friday: bool,
    pub saturday: bool,
    pub sunday: bool,
}

/// A GTFS `calendar_dates.txt` row.
#[derive(Clone, Debug)]
pub struct CalendarDate {
    pub service_id: String,
    pub gtfs_date: ServiceDate,
    pub exception_type: i16,
}

/// Whether the weekly pattern `g` runs on day number `d`.
pub open spec fn general_runs_on(g: GeneralCalendar, d: int) -> bool {
    &&& g.days@.contains(weekday_of_day(d))
    &&& g.start_date.days_from_ce <= d <= g.end_date.days_from_ce
}

/// The exception that `service` records for day number `d`, if any.
pub open spec fn exception_on(service: CalendarUnified, d: int) -> Option<Exception> {
    match service.exceptions {
        Some(m) => if m@.contains_key(d as i32) {
            Some(m@[d as i32])
        } else {
            None
        },
        None => None,
    }
}

/// Whether `service` runs on day number `d`: an exception for that date decides
/// (added: runs, deleted: does not run); otherwise the weekly pattern decides, and a
/// service without one does not run.
pub open spec fn runs_on(service: CalendarUnified, d: int) -> bool {
    match exception_on(service, d) {
        Some(Exception::Added) => true,
        Some(Exception::Deleted) => false,
        None => match service.general_calendar {
            Some(g) => general_runs_on(g, d),
            None => false,
        },
    }
}

/// An exception for a date decides whether a service runs on it, whatever its weekly
/// pattern says; without one, the weekly pattern decides.
pub proof fn lemma_exception_decides(service: CalendarUnified, d: int)
    ensures
        exception_on(service, d) == Some(Exception::Added) ==> runs_on(service, d),
        exception_on(service, d) == Some(Exception::Deleted) ==> !runs_on(service, d),
        exception_on(service, d) is None ==> (runs_on(service, d) <==> (
        service.general_calendar matches Some(g) && general_runs_on(g, d))),
{
}

/// A date that the exceptions map adds runs, and one that it deletes does not, whatever the
/// weekly pattern and its start and end dates say.
pub proof fn lemma_exception_dates(service: CalendarUnified, d: i32)
    requires
        service.exceptions matches Some(m) && m@.contains_key(d),
    ensures
        service.exceptions->0@[d] == Exception::Added ==> runs_on(service, d as int),
        service.exceptions->0@[d] == Exception::Deleted ==> !runs_on(service, d as int),
{
}

/// A date without an exception runs exactly when the service has a weekly pattern whose start
/// and end dates enclose it and that lists its weekday.
pub proof fn lemma_dates_without_exception(service: CalendarUnified, d: i32)
    requires
        service.exceptions is None || !service.exceptions->0@.contains_key(d),
    ensures
        runs_on(service, d as int) <==> (service.general_calendar matches Some(g) && {
            &&& g.start_date.days_from_ce <= d <= g.end_date.days_from_ce
            &&& g.days@.contains(weekday_of_day(d as int))
        }),
{
}

/// Day numbers follow the week: day 1 (January 1 of year 1) is a Monday, and each day's
/// weekday is the one after the previous day's, Sunday being followed by Monday.
pub proof fn lemma_weekday_of_day(d: int)
    ensures
        weekday_of_day(1) == Weekday::Mon,
        weekday_index(weekday_of_day(d)) == (d - 1) % 7,
        weekday_index(weekday_of_day(d + 1)) == (weekday_index(weekday_of_day(d)) + 1) % 7,
{
}

/// The weekdays, Monday to Sunday, whose flag is set in `calendar`.
pub open spec fn flagged_weekdays(calendar: Calendar) -> Seq<Weekday> {
    let s0 = if calendar.monday { seq![Weekday::Mon] } else { Seq::empty() };
    let s1 = if calendar.tuesday { s0.push(Weekday::Tue) } else { s0 };
    let s2 = if calendar.wednesday { s1.push(Weekday::Wed) } else { s1 };
    let s3 = if calendar.thursday { s2.push(Weekday::Thu) } else { s2 };
    let s4 = if calendar.friday { s3.push(Weekday::Fri) } else { s3 };
    let s5 = if calendar.saturday { s4.push(Weekday::Sat) } else { s4 };
    if calendar.sunday { s5.push(Weekday::Sun) } else { s5 }
}

/// Whether the flag of weekday `w` is set in `calendar`.
pub open spec fn day_flag(calendar: Calendar, w: Weekday) -> bool {
    match w {
        Weekday::Mon => calendar.monday,
        Weekday::Tue => calendar.tuesday,
        Weekday::Wed => calendar.wednesday,
        Weekday::Thu => calendar.thursday,
        Weekday::Fri => calendar.friday,
        Weekday::Sat => calendar.saturday,
        Weekday::Sun => calendar.sunday,
    }
}

/// The weekdays whose flag is set in `calendar`, Monday first.
pub fn make_weekdays(calendar: &Calendar) -> (days: Vec<Weekday>)
    ensures
        days@ == flagged_weekdays(*calendar),
{
    let mut days: Vec<Weekday> = Vec::new();
    if calendar.monday {
        days.push(Weekday::Mon);
    }
    if calendar.tuesday {
        days.push(Weekday::Tue);
    }
    if calendar.wednesday {
        days.push(Weekday::Wed);
    }
    if calendar.thursday {
        days.push(Weekday::Thu);
    }
    if calendar.friday {
        days.push(Weekday::Fri);
    }
    if calendar.saturday {
        days.push(Weekday::Sat);
    }
    if calendar.sunday {
        days.push(Weekday::Sun);
    }
    days
}

/// A weekday is among `make_weekdays(calendar)` exactly when its flag is set,
/// and no weekday occurs twice.
pub proof fn lemma_flagged_weekdays(calendar: Calendar, w: Weekday)
    ensures
        flagged_weekdays(calendar).contains(w) <==> day_flag(calendar, w),
        flagged_weekdays(calendar).no_duplicates(),
{
    broadcast use vstd::seq_lib::group_seq_properties;

    let s0: Seq<Weekday> = if calendar.monday { seq![Weekday::Mon] } else { Seq::empty() };
    let s1 = if calendar.tuesday { s0.push(Weekday::Tue) } else { s0 };
    let s2 = if calendar.wednesday { s1.push(Weekday::Wed) } else { s1 };
    let s3 = if calendar.thursday { s2.push(Weekday::Thu) } else { s2 };
    let s4 = if calendar.friday { s3.push(Weekday::Fri) } else { s3 };
    let s5 = if calendar.saturday { s4.push(Weekday::Sat) } else { s4 };
    let s6 = if calendar.sunday { s5.push(Weekday::Sun) } else { s5 };
    assert(s6 == flagged_weekdays(calendar));
    assert(forall|x: Weekday| s0.contains(x) ==> weekday_index(x) < 1 && day_flag(calendar, x));
    assert(forall|x: Weekday| s1.contains(x) ==> weekday_index(x) < 2 && day_flag(calendar, x));
    assert(forall|x: Weekday| s2.contains(x) ==> weekday_index(x) < 3 && day_flag(calendar, x));
    assert(forall|x: Weekday| s3.contains(x) ==> weekday_index(x) < 4 && day_flag(calendar, x));
    assert(forall|x: Weekday| s4.contains(x) ==> weekday_index(x) < 5 && day_flag(calendar, x));
    assert(forall|x: Weekday| s5.contains(x) ==> weekday_index(x) < 6 && day_flag(calendar, x));
    assert(forall|x: Weekday| s6.contains(x) ==> day_flag(calendar, x));
    assert(s0.no_duplicates());
    assert(s1.no_duplicates());
    assert(s2.no_duplicates());
    assert(s3.no_duplicates());
    assert(s4.no_duplicates());
    assert(s5.no_duplicates());
    assert(s6.no_duplicates());
    if day_flag(calendar, w) {
        match w {
            Weekday::Mon => assert(s1.contains(w)),
            Weekday::Tue => assert(s2.contains(w)),
            Weekday::Wed => assert(s3.contains(w)),
            Weekday::Thu => assert(s4.contains(w)),
            Weekday::Fri => assert(s5.contains(w)),
            Weekday::Sat => assert(s5.contains(w)),
            Weekday::Sun => assert(s6.contains(w)),
        }
        assert(s6.contains(w));
    }
}

/// A service whose weekly pattern lists the weekdays of a `calendar.txt` row (as
/// `make_weekdays` gives them) and that has no exceptions runs on a date exactly when the
/// date lies between the pattern's bounds and the row flags the date's weekday.
pub proof fn lemma_weekly_service_days(calendar: Calendar, service: CalendarUnified, d: int)
    requires
        service.general_calendar matches Some(g) && g.days@ == flagged_weekdays(calendar),
        service.exceptions is None,
    ensures
        runs_on(service, d) <==> ({
            let g = service.general_calendar->0;
            &&& g.start_date.days_from_ce <= d <= g.end_date.days_from_ce
            &&& day_flag(calendar, weekday_of_day(d))
        }),
{
    lemma_flagged_weekdays(calendar, weekday_of_day(d));
}

fn weekdays_contain(days: &Vec<Weekday>, w: Weekday) -> (b: bool)
    ensures
        b == days@.contains(w),
{
    let mut i: usize = 0;
    while i < days.len()
        invariant
            i <= days.len(),
            forall|j: int| 0 <= j < i ==> days@[j] != w,
        decreases days.len() - i,
    {
        if days[i] == w {
            return true;
        }
        i = i + 1;
    }
    false
}

/// Whether `service` runs on `input_date`.
pub fn datetime_in_service(service: &CalendarUnified, input_date: ServiceDate) -> (answer: bool)
    ensures
        answer == runs_on(*service, input_date.days_from_ce as int),
{
    let mut answer = false;
    if let Some(calendar_general) = &service.general_calendar {
        let weekday = input_date.weekday();
        if weekdays_contain(&calendar_general.days, weekday)
            && calendar_general.start_date.days_from_ce <= input_date.days_from_ce
            && calendar_general.end_date.days_from_ce >= input_date.days_from_ce {
            answer = true;
        }
    }
    if let Some(exceptions) = &service.exceptions {
        if let Some(exception) = exceptions.get(&input_date.days_from_ce) {
            match exception {
                Exception::Added => {
                    answer = true;
                },
                Exception::Deleted => {
                    answer = false;
                },
            }
        }
    }
    answer
}


/// The exception that a `calendar_dates.txt` exception type stands for: 1 adds service, 2 removes it.
pub open spec fn exception_of_type(exception_type: i16) -> Exception {
    if exception_type == 1 {
        Exception::Added
    } else {
        Exception::Deleted
    }
}

impl CalendarUnified {
    /// The service made of the single exception that `x` records, with no weekly pattern.
    /// The exception type must be 1 (added) or 2 (deleted).
    pub fn empty_exception_from_calendar_date(x: &CalendarDate) -> (c: CalendarUnified)
        requires
            x.exception_type == 1 || x.exception_type == 2,
        ensures
            c.id@ == x.service_id@,
            c.general_calendar is None,
            c.exceptions matches Some(m) && m@ == map![x.gtfs_date.days_from_ce => exception_of_type(x.exception_type)],
    {
        let exception = if x.exception_type == 1 {
            Exception::Added
        } else {
            Exception::Deleted
        };
        let mut exceptions: BTreeMap<i32, Exception> = BTreeMap::new();
        exceptions.insert(x.gtfs_date.days_from_ce, exception);
        CalendarUnified {
            id: x.service_id.clone(),
            general_calendar: None,
            exceptions: Some(exceptions),
        }
    }
}

/// A service made from one calendar date runs on that date exactly when the date adds
/// service, and on no other date.
pub proof fn lemma_single_exception_service(x: CalendarDate, c: CalendarUnified, d: int)
    requires
        c.general_calendar is None,
        c.exceptions matches Some(m) && m@ == map![x.gtfs_date.days_from_ce => exception_of_type(x.exception_type)],
        i32::MIN <= d <= i32::MAX,
    ensures
        runs_on(c, d) <==> (d == x.gtfs_date.days_from_ce && x.exception_type == 1),
{
    let m = c.exceptions->0;
    if d == x.gtfs_date.days_from_ce {
        assert(m@.contains_key(d as i32));
    } else {
        assert(!m@.contains_key(d as i32));
    }
}


/// Whether `year` is a leap year of the proleptic Gregorian calendar.
pub open spec fn is_leap_year(year: int) -> bool {
    year % 4 == 0 && (year % 100 != 0 || year % 400 == 0)
}

/// The number of days of month `month` of `year`.
pub open spec fn days_in_month(year: int, month: int) -> int {
    if month == 2 {
        if is_leap_year(year) {
            29
        } else {
            28
        }
    } else if month == 4 || month == 6 || month == 9 || month == 11 {
        30
    } else {
        31
    }
}

/// The number of days of `year` before the first of month `month`.
pub open spec fn days_before_month(year: int, month: int) -> int {
    let common: int = if month <= 1 {
        0
    } else if month == 2 {
        31
    } else if month == 3 {
        59
    } else if month == 4 {
        90
    } else if month == 5 {
        120
    } else if month == 6 {
        151
    } else if month == 7 {
        181
    } else if month == 8 {
        212
    } else if month == 9 {
        243
    } else if month == 10 {
        273
    } else if month == 11 {
        304
    } else {
        334
    };
    if is_leap_year(year) && month > 2 {
        common + 1
    } else {
        common
    }
}

/// The day number of `year`-`month`-`day`, January 1 of year 1 being day 1.
pub open spec fn gregorian_day_number(year: int, month: int, day: int) -> int {
    let y = year - 1;
    365 * y + y / 4 - y / 100 + y / 400 + days_before_month(year, month) + day
}

/// Whether `year`-`month`-`day` is a date that chrono represents: a valid date of a year from
/// -262143 to 262142.
pub open spec fn ymd_in_range(year: int, month: int, day: int) -> bool {
    &&& -262_143 <= year <= 262_142
    &&& 1 <= month <= 12
    &&& 1 <= day <= days_in_month(year, month)
}

/// Calls `chrono::NaiveDate::from_ymd_opt` and `num_days_from_ce`: the day number of a date,
/// or `None` for a date chrono rejects. chrono's source rejects an invalid month or day and a
/// year outside -262143 to 262142, and numbers days from January 1 of year 1 in the proleptic
/// Gregorian calendar.
#[verifier::external_body]
fn chrono_days_from_ymd(year: i32, month: u32, day: u32) -> (r: Option<i32>)
    ensures
        r is Some <==> ymd_in_range(year as int, month as int, day as int),
        r matches Some(d) ==> d == gregorian_day_number(year as int, month as int, day as int),
{
    match NaiveDate::from_ymd_opt(year, month, day) {
        Some(date) => Some(date.num_days_from_ce()),
        None => None,
    }
}

impl ServiceDate {
    /// The date `year`-`month`-`day`, or `None` for a date that does not exist or lies
    /// outside chrono's range.
    pub fn from_ymd(year: i32, month: u32, day: u32) -> (r: Option<ServiceDate>)
        ensures
            r is Some <==> ymd_in_range(year as int, month as int, day as int),
            r matches Some(d) ==> d.days_from_ce == gregorian_day_number(
                year as int,
                month as int,
                day as int,
            ),
    {
        match chrono_days_from_ymd(year, month, day) {
            Some(days) => Some(ServiceDate { days_from_ce: days }),
            None => None,
        }
    }
}

} // verus!
