use bank_scraper::calendar::{leap_year, month_length, Date, Timestamp, MAX_YEAR, MIN_YEAR};

fn cal_date(year: i32, month: u32, day: u32) -> Date {
    Date::from_ymd(year, month, day).expect("a day of the calendar")
}

#[test]
fn leap_years_follow_the_gregorian_rule() {
    assert!(leap_year(2024));
    assert!(leap_year(2000));
    assert!(!leap_year(1900));
    assert!(!leap_year(2023));
    assert!(leap_year(0));
    assert!(leap_year(-4));
    assert!(!leap_year(-100));
    assert!(leap_year(-400));
    assert!(leap_year(i32::MIN));
    assert!(!leap_year(i32::MAX));
}

#[test]
fn month_lengths() {
    assert_eq!(month_length(2024, 1), 31);
    assert_eq!(month_length(2024, 2), 29);
    assert_eq!(month_length(2023, 2), 28);
    assert_eq!(month_length(2023, 4), 30);
    assert_eq!(month_length(2023, 6), 30);
    assert_eq!(month_length(2023, 9), 30);
    assert_eq!(month_length(2023, 11), 30);
    assert_eq!(month_length(2023, 12), 31);
    assert_eq!(month_length(2023, 0), 0);
    assert_eq!(month_length(2023, 13), 0);
}

#[test]
fn from_ymd_accepts_days_of_the_calendar_only() {
    assert_eq!(Date::from_ymd(2024, 2, 29), Some(Date { year: 2024, month: 2, day: 29 }));
    assert_eq!(Date::from_ymd(2023, 2, 29), None);
    assert_eq!(Date::from_ymd(2023, 4, 31), None);
    assert_eq!(Date::from_ymd(2023, 0, 1), None);
    assert_eq!(Date::from_ymd(2023, 13, 1), None);
    assert_eq!(Date::from_ymd(2023, 1, 0), None);
    assert_eq!(Date::from_ymd(2023, 1, 32), None);
    assert!(Date::from_ymd(MAX_YEAR, 12, 31).is_some());
    assert!(Date::from_ymd(MIN_YEAR, 1, 1).is_some());
    assert_eq!(Date::from_ymd(MAX_YEAR + 1, 1, 1), None);
    assert_eq!(Date::from_ymd(MIN_YEAR - 1, 12, 31), None);
}

#[test]
fn the_calendar_has_the_years_of_chrono() {
    assert_eq!(chrono::NaiveDate::MIN, chrono::NaiveDate::from_ymd_opt(MIN_YEAR, 1, 1).unwrap());
    assert_eq!(chrono::NaiveDate::MAX, chrono::NaiveDate::from_ymd_opt(MAX_YEAR, 12, 31).unwrap());
    assert!(chrono::NaiveDate::from_ymd_opt(MAX_YEAR + 1, 1, 1).is_none());
    assert!(chrono::NaiveDate::from_ymd_opt(MIN_YEAR - 1, 12, 31).is_none());
}

#[test]
fn validity_check_agrees_with_from_ymd() {
    assert!(Date { year: 2024, month: 2, day: 29 }.is_wf());
    assert!(!Date { year: 2023, month: 2, day: 29 }.is_wf());
    assert!(!Date { year: 2023, month: 13, day: 1 }.is_wf());
    assert!(!Date { year: 2023, month: 1, day: 0 }.is_wf());
    assert!(!Date { year: MAX_YEAR + 1, month: 1, day: 1 }.is_wf());
}

#[test]
fn dates_are_ordered_by_year_month_day() {
    assert!(cal_date(2023, 12, 31).is_before(&cal_date(2024, 1, 1)));
    assert!(cal_date(2024, 1, 31).is_before(&cal_date(2024, 2, 1)));
    assert!(cal_date(2024, 2, 1).is_before(&cal_date(2024, 2, 2)));
    assert!(!cal_date(2024, 2, 2).is_before(&cal_date(2024, 2, 2)));
    assert!(!cal_date(2024, 2, 2).is_before(&cal_date(2024, 2, 1)));
    assert!(!cal_date(2025, 1, 1).is_before(&cal_date(2024, 12, 31)));
    assert!(cal_date(-1, 12, 31).is_before(&cal_date(0, 1, 1)));
}

#[test]
fn month_boundaries() {
    assert_eq!(cal_date(2024, 3, 15).first_of_month(), cal_date(2024, 3, 1));
    assert_eq!(cal_date(2024, 2, 10).last_of_month(), cal_date(2024, 2, 29));
    assert_eq!(cal_date(2023, 2, 10).last_of_month(), cal_date(2023, 2, 28));
    assert_eq!(cal_date(2024, 3, 15).first_of_next_month(), Some(cal_date(2024, 4, 1)));
    assert_eq!(cal_date(2024, 1, 31).first_of_next_month(), Some(cal_date(2024, 2, 1)));
    assert_eq!(cal_date(2024, 12, 1).first_of_next_month(), Some(cal_date(2025, 1, 1)));
    assert_eq!(cal_date(MAX_YEAR, 11, 30).first_of_next_month(), Some(cal_date(MAX_YEAR, 12, 1)));
    assert_eq!(cal_date(MAX_YEAR, 12, 1).first_of_next_month(), None);
}

#[test]
fn timestamps_are_ordered_by_date_then_time() {
    let day = cal_date(2024, 3, 15);
    let next = cal_date(2024, 3, 16);
    let a = Timestamp { date: day, secs: 10, frac: 5 };
    let b = Timestamp { date: day, secs: 10, frac: 6 };
    let c = Timestamp { date: day, secs: 11, frac: 0 };
    let d = Timestamp { date: next, secs: 0, frac: 0 };
    assert!(a.is_before(&b));
    assert!(b.is_before(&c));
    assert!(c.is_before(&d));
    assert!(a.is_before(&d));
    assert!(!a.is_before(&a));
    assert!(!b.is_before(&a));
    assert!(!d.is_before(&c));
}

#[test]
fn timestamp_order_is_the_order_of_chrono() {
    let stamps = [
        (2024, 3, 15, 10u32, 5u32),
        (2024, 3, 15, 10, 6),
        (2024, 3, 15, 11, 0),
        (2024, 3, 16, 0, 0),
        (2023, 12, 31, 86_399, 1_999_999_999),
        (-5, 1, 1, 0, 0),
    ];
    for x in stamps {
        for y in stamps {
            let ours = Timestamp { date: cal_date(x.0, x.1, x.2), secs: x.3, frac: x.4 }
                .is_before(&Timestamp { date: cal_date(y.0, y.1, y.2), secs: y.3, frac: y.4 });
            let left = chrono::NaiveDate::from_ymd_opt(x.0, x.1, x.2)
                .unwrap()
                .and_time(
                    chrono::NaiveTime::from_num_seconds_from_midnight_opt(x.3, x.4).unwrap(),
                )
                .and_utc();
            let right = chrono::NaiveDate::from_ymd_opt(y.0, y.1, y.2)
                .unwrap()
                .and_time(
                    chrono::NaiveTime::from_num_seconds_from_midnight_opt(y.3, y.4).unwrap(),
                )
                .and_utc();
            assert_eq!(ours, left < right);
        }
    }
}

fn cal_days_before_year(year: i64) -> i64 {
    let y = year - 1;
    365 * y + y.div_euclid(4) - y.div_euclid(100) + y.div_euclid(400)
}

fn cal_days_before_month(year: i32, month: u32) -> i64 {
    let common = [0, 31, 59, 90, 120, 151, 181, 212, 243, 273, 304, 334][(month - 1) as usize];
    if month > 2 && leap_year(year) {
        common + 1
    } else {
        common
    }
}

fn cal_day_number(date: Date) -> i64 {
    cal_days_before_year(date.year as i64) + cal_days_before_month(date.year, date.month)
        + date.day as i64
}

#[test]
fn day_numbers_are_those_of_chrono() {
    use_dates(|date| {
        let theirs = chrono::NaiveDate::from_ymd_opt(date.year, date.month, date.day)
            .expect("a day of the calendar");
        assert_eq!(cal_day_number(date), chrono::Datelike::num_days_from_ce(&theirs) as i64);
    });
    assert_eq!(cal_day_number(cal_date(1, 1, 1)), 1);
    assert_eq!(cal_day_number(cal_date(0, 12, 31)), 0);
    assert_eq!(cal_day_number(cal_date(1970, 1, 1)), 719_163);
}

fn use_dates(mut check: impl FnMut(Date)) {
    let years = [
        MIN_YEAR, MIN_YEAR + 1, -400, -101, -100, -99, -5, -4, -1, 0, 1, 4, 99, 100, 101, 399,
        400, 401, 1899, 1900, 1999, 2000, 2001, 2023, 2024, 2100, 9999, 10_000, MAX_YEAR - 1,
        MAX_YEAR,
    ];
    for year in years {
        for month in 1..=12 {
            for day in [1, 2, 15, 27, 28, 29, 30, 31] {
                if let Some(date) = Date::from_ymd(year, month, day) {
                    check(date);
                }
            }
        }
    }
}
