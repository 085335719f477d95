use memtoy::calendar::{CalendarTracker, DATE_FORMAT, DAY_OF_YEAR_FORMAT};
use memtoy::dates::{date_from_parts, days_before, CalDate, MAX_YEAR, MIN_YEAR};

fn date(year: i32, month: u32, day: u32) -> CalDate {
    CalDate { year, month, day }
}

#[test]
fn dates_that_exist() {
    assert_eq!(date_from_parts(2015, 3, 14), Some(date(2015, 3, 14)));
    assert_eq!(date_from_parts(-4, 2, 29), Some(date(-4, 2, 29)));
    assert_eq!(date_from_parts(2000, 2, 29), Some(date(2000, 2, 29)));
    assert_eq!(date_from_parts(MIN_YEAR, 1, 1), Some(date(MIN_YEAR, 1, 1)));
    assert_eq!(date_from_parts(MAX_YEAR, 12, 31), Some(date(MAX_YEAR, 12, 31)));
}

#[test]
fn dates_that_do_not_exist() {
    assert_eq!(date_from_parts(2015, 0, 14), None);
    assert_eq!(date_from_parts(2015, 2, 29), None);
    assert_eq!(date_from_parts(1900, 2, 29), None);
    assert_eq!(date_from_parts(2023, 4, 31), None);
    assert_eq!(date_from_parts(2023, 13, 1), None);
    assert_eq!(date_from_parts(400000, 1, 1), None);
    assert_eq!(date_from_parts(-400000, 1, 1), None);
    assert_eq!(date_from_parts(MIN_YEAR - 1, 12, 31), None);
}

#[test]
fn going_back_days() {
    assert_eq!(days_before(date(2015, 9, 5), 40), Some(date(2015, 7, 27)));
    assert_eq!(days_before(date(2024, 3, 1), 1), Some(date(2024, 2, 29)));
    assert_eq!(days_before(date(2023, 1, 1), 1), Some(date(2022, 12, 31)));
    assert_eq!(days_before(date(2015, 9, 5), 0), Some(date(2015, 9, 5)));
    assert_eq!(days_before(date(MIN_YEAR, 1, 1), 1), None);
    assert_eq!(days_before(date(MIN_YEAR, 1, 2), 1), Some(date(MIN_YEAR, 1, 1)));
}

#[test]
fn calendar_writes_weekday_and_date() {
    let today = date(2024, 1, 1);
    assert_eq!(CalendarTracker::describe_date(2015, 9, 5, today, DATE_FORMAT), "Sat, 2015-09-05");
    assert_eq!(CalendarTracker::describe_date(1, 1, 1, today, DATE_FORMAT), "Mon, 0001-01-01");
    assert_eq!(CalendarTracker::describe_date(2000, 2, 29, today, DATE_FORMAT), "Tue, 2000-02-29");
    assert_eq!(CalendarTracker::describe_date(-1, 1, 1, today, DATE_FORMAT), "Fri, -0001-01-01");
    assert_eq!(
        CalendarTracker::describe_date(10000, 12, 31, today, DATE_FORMAT),
        "Sun, +10000-12-31"
    );
}

#[test]
fn calendar_writes_day_of_year() {
    let today = date(2024, 1, 1);
    assert_eq!(
        CalendarTracker::describe_date(2015, 9, 5, today, DAY_OF_YEAR_FORMAT),
        "Today is the 248th Day"
    );
    assert_eq!(
        CalendarTracker::describe_date(2016, 12, 31, today, DAY_OF_YEAR_FORMAT),
        "Today is the 366th Day"
    );
    assert_eq!(
        CalendarTracker::describe_date(2015, 1, 7, today, DAY_OF_YEAR_FORMAT),
        "Today is the 007th Day"
    );
}

#[test]
fn calendar_zero_means_today() {
    let today = date(2024, 2, 29);
    assert_eq!(CalendarTracker::describe_date(0, 0, 0, today, DATE_FORMAT), "Thu, 2024-02-29");
    assert_eq!(
        CalendarTracker::describe_date(0, 0, 0, today, DAY_OF_YEAR_FORMAT),
        "Today is the 060th Day"
    );
}

#[test]
fn calendar_refuses_missing_dates() {
    let cal = CalendarTracker::new();
    assert_eq!(cal.get_date(2015, 2, 30), "error year, month, day");
    assert_eq!(cal.get_date(2015, -1, 3), "error year, month, day");
    assert_eq!(cal.get_date(2015, 3, -3), "error year, month, day");
    assert_eq!(cal.day_of_year(0, 0, 1), "error year, month, day");
    assert_eq!(cal.get_date(2015, 9, 5), "Sat, 2015-09-05");
    assert_eq!(cal.day_of_year(2015, 9, 5), "Today is the 248th Day");
}

#[test]
fn calendar_today_from_clock() {
    let cal = CalendarTracker::new();
    let shown = cal.get_date(0, 0, 0);
    assert_eq!(shown.len(), "Mon, 2024-01-01".len());
    assert_eq!(&shown[3..5], ", ");
    let day = cal.day_of_year(0, 0, 0);
    assert!(day.starts_with("Today is the "));
    assert!(day.ends_with("th Day"));
}

#[test]
fn going_back_many_days() {
    assert_eq!(days_before(date(2000, 1, 1), 730_485), Some(date(0, 1, 1)));
    assert_eq!(days_before(date(2000, 1, 1), 4_000_000_000), None);
    assert_eq!(days_before(date(2000, 1, 1), u32::MAX), None);
}
