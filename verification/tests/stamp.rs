use chrono::{Local, NaiveDate};
use zet::stamp::Timestamp;

fn chrono_text(year: i32, month: u32, day: u32, hour: u32, minute: u32) -> String {
    NaiveDate::from_ymd_opt(year, month, day)
        .unwrap()
        .and_hms_opt(hour, minute, 0)
        .unwrap()
        .format("%Y%m%d%H%M")
        .to_string()
}

#[test]
fn a_stamp_is_twelve_digits() {
    let stamp = Timestamp::new(2024, 3, 9, 7, 5).unwrap();
    assert_eq!(stamp.text(), "202403090705");
    let late = Timestamp::new(1999, 12, 31, 23, 59).unwrap();
    assert_eq!(late.text(), "199912312359");
}

#[test]
fn the_ends_of_each_range_are_accepted() {
    assert_eq!(Timestamp::new(0, 1, 1, 0, 0).unwrap().text(), "000001010000");
    assert_eq!(Timestamp::new(9999, 12, 31, 23, 59).unwrap().text(), "999912312359");
    assert_eq!(Timestamp::new(7, 2, 31, 0, 0).unwrap().text(), "000702310000");
}

#[test]
fn fields_out_of_range_are_refused() {
    assert!(Timestamp::new(-1, 1, 1, 0, 0).is_none());
    assert!(Timestamp::new(10000, 1, 1, 0, 0).is_none());
    assert!(Timestamp::new(2024, 0, 1, 0, 0).is_none());
    assert!(Timestamp::new(2024, 13, 1, 0, 0).is_none());
    assert!(Timestamp::new(2024, 1, 0, 0, 0).is_none());
    assert!(Timestamp::new(2024, 1, 32, 0, 0).is_none());
    assert!(Timestamp::new(2024, 1, 1, 24, 0).is_none());
    assert!(Timestamp::new(2024, 1, 1, 0, 60).is_none());
    assert!(Timestamp::new(2024, 300, 1, 0, 0).is_none());
    assert!(Timestamp::new(70000, 1, 1, 0, 0).is_none());
}

#[test]
fn the_text_is_what_chrono_writes() {
    let cases: [(i32, u32, u32, u32, u32); 7] = [
        (0, 1, 1, 0, 0),
        (5, 6, 7, 8, 9),
        (99, 10, 11, 12, 13),
        (999, 9, 9, 9, 9),
        (1000, 1, 31, 10, 0),
        (2024, 2, 29, 23, 59),
        (9999, 12, 31, 23, 59),
    ];
    for (year, month, day, hour, minute) in cases {
        let stamp = Timestamp::new(year, month, day, hour, minute).unwrap();
        assert_eq!(stamp.text(), chrono_text(year, month, day, hour, minute));
    }
}

#[test]
fn now_is_the_minute_on_the_local_clock() {
    let before = Local::now();
    let stamp = Timestamp::now().unwrap();
    let after = Local::now();
    let text = stamp.text();
    assert_eq!(text.len(), 12);
    assert!(text.chars().all(|c| c.is_ascii_digit()));
    let early = before.format("%Y%m%d%H%M").to_string();
    let late = after.format("%Y%m%d%H%M").to_string();
    assert!(text == early || text == late);
}
