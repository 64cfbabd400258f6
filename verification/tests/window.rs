use bank_scraper::calendar::{Date, MAX_YEAR, MIN_YEAR};
use bank_scraper::gocardless::sync::{round_to_month, sync_window, window_ending, DateWindow};

fn win_date(year: i32, month: u32, day: u32) -> Date {
    Date::from_ymd(year, month, day).expect("a day of the calendar")
}

#[test]
fn window_rounds_forward_to_month_start() {
    let window = sync_window(win_date(2024, 6, 15), 90).expect("a window");
    assert_eq!(window.start, win_date(2024, 4, 1));
    assert_eq!(window.end, win_date(2024, 6, 15));
}

#[test]
fn window_keeps_a_start_on_the_first() {
    // 2024-03-30 less 90 days is 2023-12-31; one day on is 2024-01-01.
    let window = sync_window(win_date(2024, 3, 30), 90).expect("a window");
    assert_eq!(window, DateWindow { start: win_date(2024, 1, 1), end: win_date(2024, 3, 30) });
}

#[test]
fn window_start_may_lie_after_its_end() {
    let window = sync_window(win_date(2024, 6, 15), 5).expect("a window");
    assert_eq!(window.start, win_date(2024, 7, 1));
    assert_eq!(window.end, win_date(2024, 6, 15));
    let none_back = sync_window(win_date(2024, 6, 30), 0).expect("a window");
    assert_eq!(none_back.start, win_date(2024, 7, 1));
}

#[test]
fn window_of_one_day_starts_on_that_day_or_next_month() {
    assert_eq!(
        sync_window(win_date(2024, 5, 1), 1),
        Some(DateWindow { start: win_date(2024, 5, 1), end: win_date(2024, 5, 1) })
    );
    assert_eq!(
        sync_window(win_date(2024, 5, 2), 1),
        Some(DateWindow { start: win_date(2024, 6, 1), end: win_date(2024, 5, 2) })
    );
}

#[test]
fn window_crosses_years_and_leap_days() {
    // 2024-03-01 less 366 days plus one is 2023-03-02.
    assert_eq!(sync_window(win_date(2024, 3, 1), 366).map(|w| w.start), Some(win_date(2023, 4, 1)));
    assert_eq!(sync_window(win_date(2025, 1, 31), 31).map(|w| w.start), Some(win_date(2025, 1, 1)));
    assert_eq!(sync_window(win_date(2025, 1, 31), 32).map(|w| w.start), Some(win_date(2025, 1, 1)));
    assert_eq!(sync_window(win_date(2025, 1, 31), 33).map(|w| w.start), Some(win_date(2025, 1, 1)));
    assert_eq!(sync_window(win_date(2025, 1, 31), 62).map(|w| w.start), Some(win_date(2024, 12, 1)));
    assert_eq!(sync_window(win_date(2025, 1, 31), 63).map(|w| w.start), Some(win_date(2024, 12, 1)));
}

#[test]
fn window_beyond_the_calendar_is_none() {
    // The day before the first day of the calendar is taken first, and there is none.
    assert_eq!(sync_window(win_date(MIN_YEAR, 1, 1), 1), None);
    assert_eq!(sync_window(win_date(MIN_YEAR, 1, 1), 2), None);
    assert_eq!(
        sync_window(win_date(MIN_YEAR, 1, 1), 0).map(|w| w.start),
        Some(win_date(MIN_YEAR, 2, 1))
    );
    assert_eq!(
        sync_window(win_date(MIN_YEAR, 1, 2), 1).map(|w| w.start),
        Some(win_date(MIN_YEAR, 2, 1))
    );
    assert_eq!(
        sync_window(win_date(MIN_YEAR, 1, 2), 2).map(|w| w.start),
        None
    );
    assert_eq!(sync_window(win_date(2024, 6, 15), u64::MAX), None);
    assert_eq!(sync_window(win_date(2024, 6, 15), 1 << 31), None);
    assert_eq!(sync_window(win_date(MAX_YEAR, 12, 31), 0), None);
    assert_eq!(sync_window(win_date(MAX_YEAR, 12, 31), 10), None);
    assert_eq!(
        sync_window(win_date(MAX_YEAR, 12, 31), 31).map(|w| w.start),
        Some(win_date(MAX_YEAR, 12, 1))
    );
}

#[test]
fn window_of_a_date_that_is_no_day_is_none() {
    assert_eq!(sync_window(Date { year: 2023, month: 2, day: 30 }, 90), None);
    assert_eq!(sync_window(Date { year: 2023, month: 13, day: 1 }, 90), None);
}

#[test]
fn rounding_to_month() {
    assert_eq!(round_to_month(&win_date(2024, 3, 18)), Some(win_date(2024, 4, 1)));
    assert_eq!(round_to_month(&win_date(2024, 3, 1)), Some(win_date(2024, 3, 1)));
    assert_eq!(round_to_month(&win_date(2024, 3, 2)), Some(win_date(2024, 4, 1)));
    assert_eq!(round_to_month(&win_date(2024, 12, 31)), Some(win_date(2025, 1, 1)));
    assert_eq!(round_to_month(&win_date(2024, 1, 31)), Some(win_date(2024, 2, 1)));
    assert_eq!(round_to_month(&win_date(MAX_YEAR, 12, 1)), Some(win_date(MAX_YEAR, 12, 1)));
    assert_eq!(round_to_month(&win_date(MAX_YEAR, 12, 2)), None);
}

#[test]
fn window_from_a_given_start() {
    let end = win_date(2024, 6, 15);
    assert_eq!(window_ending(end, None), None);
    assert_eq!(
        window_ending(end, Some(win_date(2024, 3, 18))),
        Some(DateWindow { start: win_date(2024, 4, 1), end })
    );
    assert_eq!(window_ending(end, Some(win_date(MAX_YEAR, 12, 5))), None);
}

fn win_day_number(date: Date) -> i64 {
    let y = date.year as i64 - 1;
    let before_year = 365 * y + y.div_euclid(4) - y.div_euclid(100) + y.div_euclid(400);
    let leap = date.year % 4 == 0 && (date.year % 100 != 0 || date.year % 400 == 0);
    let common = [0, 31, 59, 90, 120, 151, 181, 212, 243, 273, 304, 334][(date.month - 1) as usize];
    before_year + common + if date.month > 2 && leap { 1 } else { 0 } + date.day as i64
}

#[test]
fn window_start_is_counted_in_days_and_rounded() {
    let ends = [
        win_date(2024, 6, 15),
        win_date(2024, 3, 1),
        win_date(2024, 2, 29),
        win_date(2023, 12, 31),
        win_date(2000, 1, 1),
        win_date(1900, 3, 1),
        win_date(1, 1, 1),
        win_date(0, 12, 31),
        win_date(-400, 2, 29),
    ];
    for end in ends {
        for history in [0u64, 1, 2, 27, 28, 29, 30, 31, 59, 60, 90, 91, 365, 366, 1000, 36_525, 146_097] {
            let window = sync_window(end, history).expect("a window");
            assert_eq!(window.end, end);
            assert_eq!(window.start.day, 1);
            let raw = win_day_number(end) - history as i64 + 1;
            let start = win_day_number(window.start);
            assert!(raw <= start && start <= raw + 30, "{end:?} {history}");
            // Rounded forward exactly where the unrounded start is no first of a month.
            let before = win_day_number(
                Date::from_ymd(
                    if window.start.month == 1 { window.start.year - 1 } else { window.start.year },
                    if window.start.month == 1 { 12 } else { window.start.month - 1 },
                    1,
                )
                .expect("a day of the calendar"),
            );
            assert!(start == raw || before < raw, "{end:?} {history}");
        }
    }
}
