use bank_scraper::calendar::{Date, Timestamp};
use bank_scraper::gocardless::buckets::TransactionWithStatus;
use bank_scraper::gocardless::transactions::{NoLocalMidnight, Transaction};

fn tx_date(year: i32, month: u32, day: u32) -> Date {
    Date::from_ymd(year, month, day).expect("a day of the calendar")
}

fn tx_at(year: i32, month: u32, day: u32, secs: u32) -> Timestamp {
    Timestamp { date: tx_date(year, month, day), secs, frac: 0 }
}

fn tx_empty() -> Transaction {
    Transaction {
        booking_date: None,
        booking_date_time: None,
        value_date: None,
        value_date_time: None,
        transaction_id: None,
        internal_transaction_id: None,
        other: serde_json::Value::Null,
    }
}

fn tx_fixed_zone(seconds_east: i32) -> tzfile::Tz {
    tzfile::Tz::from(chrono::FixedOffset::east_opt(seconds_east).expect("an offset"))
}

fn tx_push_u32(bytes: &mut Vec<u8>, value: u32) {
    bytes.extend_from_slice(&value.to_be_bytes());
}

fn tx_header(bytes: &mut Vec<u8>, times: u32, types: u32, chars: u32) {
    bytes.extend_from_slice(b"TZif2");
    bytes.extend_from_slice(&[0u8; 15]);
    tx_push_u32(bytes, 0);
    tx_push_u32(bytes, 0);
    tx_push_u32(bytes, 0);
    tx_push_u32(bytes, times);
    tx_push_u32(bytes, types);
    tx_push_u32(bytes, chars);
}

/// A zone that is on UTC until `at` (seconds since 1970) and `shift`
/// seconds east of it from then on.
fn tx_zone_with_change(at: i64, shift: i32) -> tzfile::Tz {
    let mut bytes = Vec::new();
    // The first block, with 32-bit times: one type, no transition.
    tx_header(&mut bytes, 0, 1, 1);
    bytes.extend_from_slice(&0i32.to_be_bytes());
    bytes.extend_from_slice(&[0, 0]);
    bytes.push(0);
    // The second block, with 64-bit times: two types, one transition.
    tx_header(&mut bytes, 1, 2, 4);
    bytes.extend_from_slice(&at.to_be_bytes());
    bytes.push(1);
    bytes.extend_from_slice(&0i32.to_be_bytes());
    bytes.extend_from_slice(&[0, 0]);
    bytes.extend_from_slice(&shift.to_be_bytes());
    bytes.extend_from_slice(&[1, 2]);
    bytes.extend_from_slice(b"A\0B\0");
    tzfile::Tz::parse("Test/Change", &bytes).expect("a zone")
}

// 2020-01-10T00:00:00Z
const TX_CHANGE: i64 = 1_578_614_400;

#[test]
fn date_prefers_booking_date() {
    let mut t = tx_empty();
    t.booking_date = Some(tx_date(2024, 3, 15));
    t.booking_date_time = Some(tx_at(2024, 3, 14, 80_000));
    t.value_date = Some(tx_date(2024, 3, 13));
    t.value_date_time = Some(tx_at(2024, 3, 12, 0));
    assert_eq!(t.date_best_effort(), Some(tx_date(2024, 3, 15)));
}

#[test]
fn date_falls_back_to_booking_instant_then_value_date() {
    let mut t = tx_empty();
    t.booking_date_time = Some(tx_at(2024, 3, 14, 80_000));
    t.value_date = Some(tx_date(2024, 3, 13));
    assert_eq!(t.date_best_effort(), Some(tx_date(2024, 3, 14)));
    t.booking_date_time = None;
    assert_eq!(t.date_best_effort(), Some(tx_date(2024, 3, 13)));
}

#[test]
fn date_is_undefined_without_date_fields() {
    assert_eq!(tx_empty().date_best_effort(), None);
    let mut t = tx_empty();
    t.value_date_time = Some(tx_at(2024, 3, 12, 0));
    assert_eq!(t.date_best_effort(), None);
}

#[test]
fn deciding_date_follows_the_priority() {
    let mut t = tx_empty();
    assert_eq!(t.deciding(), None);
    t.value_date = Some(tx_date(2024, 3, 13));
    assert_eq!(t.deciding(), Some(tx_date(2024, 3, 13)));
    t.value_date_time = Some(tx_at(2024, 3, 12, 0));
    assert_eq!(t.deciding(), None);
    t.booking_date = Some(tx_date(2024, 3, 15));
    assert_eq!(t.deciding(), Some(tx_date(2024, 3, 15)));
    t.booking_date_time = Some(tx_at(2024, 3, 14, 0));
    assert_eq!(t.deciding(), None);
}

#[test]
fn timestamp_from_midnights_follows_the_priority() {
    let booking_midnight = Some(tx_at(2024, 3, 14, 82_800));
    let value_midnight = Some(tx_at(2024, 3, 12, 82_800));
    let mut t = tx_empty();
    assert_eq!(t.timestamp_from_midnights(booking_midnight, value_midnight), None);
    t.value_date = Some(tx_date(2024, 3, 13));
    assert_eq!(t.timestamp_from_midnights(booking_midnight, value_midnight), value_midnight);
    t.value_date_time = Some(tx_at(2024, 3, 13, 5));
    assert_eq!(
        t.timestamp_from_midnights(booking_midnight, value_midnight),
        Some(tx_at(2024, 3, 13, 5))
    );
    t.booking_date = Some(tx_date(2024, 3, 15));
    assert_eq!(t.timestamp_from_midnights(booking_midnight, value_midnight), booking_midnight);
    assert_eq!(t.timestamp_from_midnights(None, value_midnight), None);
    t.booking_date_time = Some(tx_at(2024, 3, 15, 7));
    assert_eq!(
        t.timestamp_from_midnights(booking_midnight, value_midnight),
        Some(tx_at(2024, 3, 15, 7))
    );
}

#[test]
fn timestamp_takes_instants_as_they_are() {
    let zone = tx_fixed_zone(3600);
    let mut t = tx_empty();
    assert_eq!(t.timestamp_best_effort(&zone), Ok(None));
    t.value_date_time = Some(tx_at(2024, 3, 13, 5));
    assert_eq!(t.timestamp_best_effort(&zone), Ok(Some(tx_at(2024, 3, 13, 5))));
    t.value_date = Some(tx_date(2024, 3, 20));
    assert_eq!(t.timestamp_best_effort(&zone), Ok(Some(tx_at(2024, 3, 13, 5))));
    t.booking_date_time = Some(tx_at(2024, 3, 15, 7));
    t.booking_date = Some(tx_date(2024, 3, 21));
    assert_eq!(t.timestamp_best_effort(&zone), Ok(Some(tx_at(2024, 3, 15, 7))));
}

#[test]
fn timestamp_takes_dates_at_local_midnight() {
    let east = tx_fixed_zone(3600);
    let west = tx_fixed_zone(-5 * 3600);
    let utc = tx_fixed_zone(0);
    let mut t = tx_empty();
    t.value_date = Some(tx_date(2024, 3, 1));
    assert_eq!(t.timestamp_best_effort(&east), Ok(Some(tx_at(2024, 2, 29, 82_800))));
    assert_eq!(t.timestamp_best_effort(&west), Ok(Some(tx_at(2024, 3, 1, 18_000))));
    assert_eq!(t.timestamp_best_effort(&utc), Ok(Some(tx_at(2024, 3, 1, 0))));
    t.booking_date = Some(tx_date(2024, 1, 1));
    assert_eq!(t.timestamp_best_effort(&east), Ok(Some(tx_at(2023, 12, 31, 82_800))));
    t.value_date_time = Some(tx_at(2024, 3, 13, 5));
    assert_eq!(t.timestamp_best_effort(&east), Ok(Some(tx_at(2023, 12, 31, 82_800))));
}

#[test]
fn timestamp_in_the_reference_zone() {
    let london = tzfile::Tz::named("Europe/London").expect("the zone database");
    let mut t = tx_empty();
    t.booking_date = Some(tx_date(2024, 7, 1));
    assert_eq!(t.timestamp_best_effort(&london), Ok(Some(tx_at(2024, 6, 30, 82_800))));
    t.booking_date = Some(tx_date(2024, 1, 15));
    assert_eq!(t.timestamp_best_effort(&london), Ok(Some(tx_at(2024, 1, 15, 0))));
}

#[test]
fn timestamp_fails_where_midnight_is_skipped() {
    let zone = tx_zone_with_change(TX_CHANGE, 3600);
    let mut t = tx_empty();
    t.booking_date = Some(tx_date(2020, 1, 10));
    assert_eq!(
        t.timestamp_best_effort(&zone),
        Err(NoLocalMidnight { date: tx_date(2020, 1, 10) })
    );
    t.booking_date = Some(tx_date(2020, 1, 9));
    assert_eq!(t.timestamp_best_effort(&zone), Ok(Some(tx_at(2020, 1, 9, 0))));
    t.booking_date = Some(tx_date(2020, 1, 11));
    assert_eq!(t.timestamp_best_effort(&zone), Ok(Some(tx_at(2020, 1, 10, 82_800))));
    // An instant of the transaction's own keeps the date from deciding.
    t.booking_date = Some(tx_date(2020, 1, 10));
    t.booking_date_time = Some(tx_at(2020, 1, 10, 30));
    assert_eq!(t.timestamp_best_effort(&zone), Ok(Some(tx_at(2020, 1, 10, 30))));
}

#[test]
fn timestamp_fails_where_midnight_is_repeated() {
    // The clock goes back an hour at 01:00 UTC+1, so that 00:00 to 01:00
    // local time of 2020-01-10 comes twice.
    let mut bytes_zone = tx_zone_with_change(TX_CHANGE - 3600, 3600);
    let mut t = tx_empty();
    t.value_date = Some(tx_date(2020, 1, 10));
    assert_eq!(
        t.timestamp_best_effort(&bytes_zone),
        Ok(Some(tx_at(2020, 1, 9, 82_800)))
    );
    bytes_zone = tx_zone_with_change(TX_CHANGE + 1800, -3600);
    assert_eq!(
        t.timestamp_best_effort(&bytes_zone),
        Err(NoLocalMidnight { date: tx_date(2020, 1, 10) })
    );
}

#[test]
fn timestamp_of_a_date_that_is_no_day_fails() {
    let zone = tx_fixed_zone(0);
    let mut t = tx_empty();
    let no_day = Date { year: 2023, month: 2, day: 30 };
    t.value_date = Some(no_day);
    assert_eq!(t.timestamp_best_effort(&zone), Err(NoLocalMidnight { date: no_day }));
}

#[test]
fn tagged_transaction_gives_what_its_transaction_gives() {
    let zone = tx_fixed_zone(0);
    let mut t = tx_empty();
    t.booking_date_time = Some(tx_at(2024, 3, 15, 7));
    t.transaction_id = Some("abc".to_owned());
    let tagged = TransactionWithStatus::Pending(t);
    assert_eq!(tagged.timestamp_best_effort(&zone), Ok(Some(tx_at(2024, 3, 15, 7))));
    assert_eq!(tagged.transaction_id(), Some("abc"));
    assert_eq!(tagged.internal_transaction_id(), None);
    let mut u = tx_empty();
    u.internal_transaction_id = Some("own".to_owned());
    let booked = TransactionWithStatus::Booked(u);
    assert_eq!(booked.transaction_id(), None);
    assert_eq!(booked.internal_transaction_id(), Some("own"));
    assert_eq!(booked.get().internal_transaction_id.as_deref(), Some("own"));
}

#[test]
fn a_date_begins_on_itself_or_on_the_day_before() {
    let date = tx_date(2024, 3, 1);
    for seconds_east in [-86_399, -43_200, -3_600, -1, 0, 1, 3_600, 43_200, 86_399] {
        let zone = tx_fixed_zone(seconds_east);
        let mut t = tx_empty();
        t.booking_date = Some(date);
        let at = t.timestamp_best_effort(&zone).expect("a midnight").expect("an instant");
        assert_eq!(at.frac, 0);
        if seconds_east > 0 {
            assert_eq!(at.date, tx_date(2024, 2, 29));
            assert_eq!(at.secs, (86_400 - seconds_east) as u32);
        } else {
            assert_eq!(at.date, date);
            assert_eq!(at.secs, (-seconds_east) as u32);
        }
    }
}
