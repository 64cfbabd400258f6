use bank_scraper::calendar::Date;
use bank_scraper::client::{item_path, Endpoint};
use bank_scraper::gocardless::buckets::bucket_file_name;
use bank_scraper::gocardless::connect::requisition_path;

fn enc_digit(n: u32) -> char {
    char::from_digit(n, 10).expect("a digit")
}

fn enc_two(n: u32) -> String {
    [enc_digit(n / 10), enc_digit(n % 10)].iter().collect()
}

fn enc_four(n: u32) -> String {
    format!("{}{}", enc_two(n / 100), enc_two(n % 100))
}

fn enc_decimal(n: u32) -> String {
    if n < 10 {
        enc_digit(n).to_string()
    } else {
        format!("{}{}", enc_decimal(n / 10), enc_digit(n % 10))
    }
}

fn enc_year(year: i32) -> String {
    if (0..=9999).contains(&year) {
        enc_four(year as u32)
    } else if year > 0 {
        format!("+{}", enc_decimal(year as u32))
    } else if year >= -9999 {
        format!("-{}", enc_four(-year as u32))
    } else {
        format!("-{}", enc_decimal(-year as u32))
    }
}

const ENC_YEARS: [i32; 22] = [
    -262_143, -100_000, -99_999, -10_000, -9_999, -1_000, -999, -10, -1, 0, 1, 9, 10, 99, 100,
    999, 1000, 2024, 9999, 10_000, 99_999, 262_142,
];

fn enc_hyphenated(value: u128) -> String {
    let mut text = String::new();
    for i in 0..36u32 {
        if i == 8 || i == 13 || i == 18 || i == 23 {
            text.push('-');
        } else {
            let k = if i < 8 {
                i
            } else if i < 13 {
                i - 1
            } else if i < 18 {
                i - 2
            } else if i < 23 {
                i - 3
            } else {
                i - 4
            };
            let digit = (value / 16u128.pow(31 - k)) % 16;
            text.push(char::from_digit(digit as u32, 16).expect("a digit"));
        }
    }
    text
}

fn enc_percent(bytes: &[u8]) -> String {
    let mut text = String::new();
    for &b in bytes {
        let unreserved = (0x30..=0x39).contains(&b)
            || (0x41..=0x5a).contains(&b)
            || (0x61..=0x7a).contains(&b)
            || b == 0x2d
            || b == 0x2e
            || b == 0x5f
            || b == 0x7e;
        if unreserved {
            text.push(b as char);
        } else {
            text.push('%');
            text.push(char::from_digit((b / 16) as u32, 16).expect("a digit").to_ascii_uppercase());
            text.push(char::from_digit((b % 16) as u32, 16).expect("a digit").to_ascii_uppercase());
        }
    }
    text
}

#[test]
fn identifiers_are_written_digit_by_digit() {
    let values = [
        0u128,
        1,
        15,
        16,
        0x67e55044_10b1_426f_9247_bb680e5fe0c8,
        0x0123456789abcdef_fedcba9876543210,
        u128::MAX,
        u128::MAX - 1,
        1 << 127,
        0xa << 60,
        0xdead_beef,
    ];
    for value in values {
        assert_eq!(
            requisition_path(value),
            format!("/api/v2/requisitions/{}/", enc_hyphenated(value))
        );
    }
}

#[test]
fn every_byte_is_kept_or_escaped() {
    let mut text = String::new();
    for c in 0u8..128 {
        text.push(c as char);
    }
    text.push_str("äöü ß € 😀 \u{7ff}\u{800}\u{ffff}\u{10000}\u{10ffff}");
    assert_eq!(item_path("", &text, ""), enc_percent(text.as_bytes()));
    for c in text.chars() {
        let one = c.to_string();
        assert_eq!(item_path("/a/", &one, "/b"), format!("/a/{}/b", enc_percent(one.as_bytes())));
    }
}

#[test]
fn plain_identifiers_are_kept_as_they_are() {
    let plain = "ABCDEFGHIJKLMNOPQRSTUVWXYZabcdefghijklmnopqrstuvwxyz0123456789-._~";
    assert_eq!(item_path("", plain, ""), plain);
    assert_eq!(
        Endpoint::CardBalance { card_id: plain.to_owned() }.path(),
        format!("/data/v1/cards/{plain}/balance")
    );
}

#[test]
fn months_are_written_with_year_and_two_digits() {
    for year in ENC_YEARS {
        for month in 1..=12 {
            let date = Date::from_ymd(year, month, 1).expect("a day of the calendar");
            assert_eq!(
                bucket_file_name(&Some(date)),
                format!("{}-{}.jsonl", enc_year(year), enc_two(month))
            );
        }
    }
    assert_eq!(bucket_file_name(&Some(Date { year: 2024, month: 13, day: 1 })), ".jsonl");
}

#[test]
fn days_are_written_in_iso_form() {
    for year in ENC_YEARS {
        for (month, day) in [(1, 1), (2, 28), (7, 9), (10, 10), (12, 31)] {
            let date = Date::from_ymd(year, month, day).expect("a day of the calendar");
            let pairs =
                Endpoint::AccountTransactions { account_id: "x".to_owned(), from: date, to: date }
                    .query();
            let expected = format!("{}-{}-{}", enc_year(year), enc_two(month), enc_two(day));
            assert_eq!(pairs[0], ("from".to_owned(), expected.clone()));
            assert_eq!(pairs[1], ("to".to_owned(), expected));
        }
    }
    let no_day = Date { year: 2024, month: 2, day: 30 };
    let pairs =
        Endpoint::CardTransactions { card_id: "x".to_owned(), from: no_day, to: no_day }.query();
    assert_eq!(pairs[0].1, "");
}
