use chrono::{Datelike, NaiveDate, NaiveDateTime, Timelike};
use nanowatchrs::calendar::{CivilDate, CivilTime, Date, Timestamp, FIRST_DAY, LAST_DAY};
use nanowatchrs::error::ParseError;
use nanowatchrs::{date_format, long_date_format};

fn format_day(year: i32, month: u32, day: u32) -> Date {
    Date::from_ymd(year, month, day).expect("a calendar day")
}

fn format_stamp(date: Date, hour: u32, minute: u32, second: u32) -> Timestamp {
    Timestamp::new(date, CivilTime { hour, minute, second }).expect("a time of day")
}

#[test]
fn a_day_is_written_with_four_two_and_two_digits() {
    assert_eq!(date_format::serialize(&format_day(2024, 3, 5)), "2024-03-05");
    assert_eq!(date_format::serialize(&format_day(1999, 12, 31)), "1999-12-31");
    assert_eq!(date_format::serialize(&format_day(1, 1, 1)), "0001-01-01");
    assert_eq!(date_format::serialize(&format_day(0, 1, 1)), "0000-01-01");
    assert_eq!(date_format::serialize(&format_day(9999, 12, 31)), "9999-12-31");
    assert_eq!(date_format::serialize(&format_day(806, 10, 9)), "0806-10-09");
}

#[test]
fn a_day_is_written_as_chrono_writes_it() {
    for number in [FIRST_DAY, 0, 1, 100_000, 719_163, 738_946, LAST_DAY] {
        let ours = date_format::serialize(&Date::from_day_number(number).unwrap());
        let theirs =
            NaiveDate::from_num_days_from_ce_opt(number).unwrap().format("%Y-%m-%d").to_string();
        assert_eq!(ours, theirs);
    }
}

#[test]
fn a_day_is_read_from_its_text() {
    assert_eq!(date_format::deserialize("2024-03-05"), Ok(format_day(2024, 3, 5)));
    assert_eq!(date_format::deserialize("2024-02-29"), Ok(format_day(2024, 2, 29)));
    assert_eq!(date_format::deserialize("0000-01-01"), Ok(format_day(0, 1, 1)));
    assert_eq!(date_format::deserialize("9999-12-31"), Ok(format_day(9999, 12, 31)));
    assert_eq!(date_format::deserialize("1970-01-01").map(|d| d.day_number()), Ok(719_163));
}

#[test]
fn a_day_of_the_strict_shape_is_read_as_chrono_reads_it() {
    let mut number = FIRST_DAY;
    while number <= LAST_DAY {
        let text = date_format::serialize(&Date::from_day_number(number).unwrap());
        let theirs = NaiveDate::parse_from_str(&text, "%Y-%m-%d").unwrap();
        let ours = date_format::deserialize(&text).unwrap();
        assert_eq!(ours.day_number(), theirs.num_days_from_ce(), "{text}");
        number += 1_237;
    }
    for text in ["2023-02-29", "2024-13-01", "2024-00-10", "2024-01-32", "2024-99-99"] {
        assert!(NaiveDate::parse_from_str(text, "%Y-%m-%d").is_err(), "{text}");
        assert!(date_format::deserialize(text).is_err(), "{text}");
    }
}

#[test]
fn a_day_survives_writing_and_reading() {
    let mut number = FIRST_DAY;
    while number <= LAST_DAY {
        let date = Date::from_day_number(number).unwrap();
        let text = date_format::serialize(&date);
        assert_eq!(text.len(), 10);
        assert_eq!(date_format::deserialize(&text), Ok(date), "{text}");
        number += 373;
    }
}

#[test]
fn a_text_survives_reading_and_writing() {
    for text in ["2024-03-05", "0001-01-01", "1600-02-29", "9999-12-31"] {
        let date = date_format::deserialize(text).unwrap();
        assert_eq!(date_format::serialize(&date), text);
    }
}

#[test]
fn a_text_of_another_shape_is_malformed() {
    for text in [
        "",
        "2024-3-05",
        "2024-03-5",
        "24-03-05",
        " 2024-03-05",
        "2024-03-05 ",
        "2024/03/05",
        "20240305",
        "2024-03-05T",
        "+2024-03-05",
        "-024-03-05",
        "2024-03-0a",
        "2024 03 05",
        "٢٠٢٤-03-05",
        "2024-03-05 00:00:00",
    ] {
        assert_eq!(date_format::deserialize(text), Err(ParseError::Malformed), "{text:?}");
    }
}

#[test]
fn a_text_of_no_calendar_day_is_out_of_range() {
    for text in ["2023-02-29", "2024-02-30", "2024-04-31", "2024-13-01", "2024-00-10",
        "2024-01-00", "2024-01-32", "1900-02-29", "2024-99-99"]
    {
        assert_eq!(date_format::deserialize(text), Err(ParseError::OutOfRange), "{text:?}");
    }
}

#[test]
fn the_numbers_of_a_day_are_written_and_read_as_they_are() {
    let civil = CivilDate { year: 2023, month: 2, day: 29 };
    assert_eq!(date_format::write_fields(civil), Some("2023-02-29".to_string()));
    assert_eq!(date_format::read_fields("2023-02-29"), Some(civil));
    let odd = CivilDate { year: 7, month: 99, day: 0 };
    assert_eq!(date_format::write_fields(odd), Some("0007-99-00".to_string()));
    assert_eq!(date_format::read_fields("0007-99-00"), Some(odd));
    assert_eq!(date_format::read_fields("0007-99-0"), None);
}

#[test]
fn numbers_that_do_not_fit_their_digits_are_not_written() {
    assert_eq!(date_format::write_fields(CivilDate { year: 10_000, month: 1, day: 1 }), None);
    assert_eq!(date_format::write_fields(CivilDate { year: -1, month: 1, day: 1 }), None);
    assert_eq!(date_format::write_fields(CivilDate { year: 2024, month: 100, day: 1 }), None);
    assert_eq!(date_format::write_fields(CivilDate { year: 2024, month: 1, day: 100 }), None);
}

#[test]
fn a_timestamp_is_written_with_its_day_and_its_time() {
    let day = format_day(2024, 3, 5);
    assert_eq!(long_date_format::serialize(&format_stamp(day, 7, 8, 9)), "2024-03-05 07:08:09");
    assert_eq!(long_date_format::serialize(&format_stamp(day, 0, 0, 0)), "2024-03-05 00:00:00");
    assert_eq!(long_date_format::serialize(&format_stamp(day, 23, 59, 59)), "2024-03-05 23:59:59");
}

#[test]
fn a_timestamp_is_written_as_chrono_writes_it() {
    let theirs = NaiveDate::from_ymd_opt(2021, 1, 1)
        .unwrap()
        .and_hms_opt(12, 0, 0)
        .unwrap()
        .format("%Y-%m-%d %H:%M:%S")
        .to_string();
    let ours = long_date_format::serialize(&format_stamp(format_day(2021, 1, 1), 12, 0, 0));
    assert_eq!(ours, theirs);
}

#[test]
fn a_timestamp_is_read_from_its_text() {
    assert_eq!(
        long_date_format::deserialize("2021-01-01 12:00:00"),
        Ok(format_stamp(format_day(2021, 1, 1), 12, 0, 0))
    );
    assert_eq!(
        long_date_format::deserialize("1999-12-31 23:59:59"),
        Ok(format_stamp(format_day(1999, 12, 31), 23, 59, 59))
    );
}

#[test]
fn a_timestamp_of_the_strict_shape_is_read_as_chrono_reads_it() {
    for text in ["2021-01-01 12:00:00", "0000-01-01 00:00:00", "9999-12-31 23:59:59",
        "2024-02-29 07:08:09"]
    {
        let theirs = NaiveDateTime::parse_from_str(text, "%Y-%m-%d %H:%M:%S").unwrap();
        let ours = long_date_format::deserialize(text).unwrap();
        assert_eq!(ours.date().day_number(), theirs.date().num_days_from_ce(), "{text}");
        let time = ours.time();
        assert_eq!(
            (time.hour, time.minute, time.second),
            (theirs.hour(), theirs.minute(), theirs.second()),
            "{text}"
        );
    }
}

#[test]
fn a_timestamp_survives_writing_and_reading() {
    let mut number = FIRST_DAY;
    let mut second = 0;
    while number <= LAST_DAY {
        let date = Date::from_day_number(number).unwrap();
        let stamp = format_stamp(date, second / 3600, second / 60 % 60, second % 60);
        let text = long_date_format::serialize(&stamp);
        assert_eq!(text.len(), 19);
        assert_eq!(long_date_format::deserialize(&text), Ok(stamp), "{text}");
        number += 1009;
        second = (second + 4999) % 86_400;
    }
}

#[test]
fn a_timestamp_text_of_another_shape_is_malformed() {
    for text in [
        "",
        "2021-01-01",
        "2021-01-01T12:00:00",
        "2021-01-0112:00:00",
        "2021-01-01  12:00:00",
        "2021-01-01 12:00",
        "2021-01-01 1:02:03",
        "2021-01-01 12-00-00",
        "2021-1-01 12:00:00",
        "2021-01-01 12:00:00Z",
        "2021-01-01 12:00:0x",
    ] {
        assert_eq!(long_date_format::deserialize(text), Err(ParseError::Malformed), "{text:?}");
    }
}

#[test]
fn a_timestamp_text_of_no_day_or_time_is_out_of_range() {
    for text in [
        "2021-02-29 12:00:00",
        "2021-13-01 12:00:00",
        "2021-01-01 24:00:00",
        "2021-01-01 12:60:00",
        "2021-01-01 12:00:60",
        "2021-01-01 99:99:99",
    ] {
        assert_eq!(long_date_format::deserialize(text), Err(ParseError::OutOfRange), "{text:?}");
    }
}

#[test]
fn the_numbers_of_a_timestamp_are_written_and_read_as_they_are() {
    let civil = CivilDate { year: 2021, month: 2, day: 30 };
    let time = CivilTime { hour: 25, minute: 61, second: 99 };
    assert_eq!(
        long_date_format::write_fields(civil, time),
        Some("2021-02-30 25:61:99".to_string())
    );
    assert_eq!(long_date_format::read_fields("2021-02-30 25:61:99"), Some((civil, time)));
    assert_eq!(
        long_date_format::write_fields(civil, CivilTime { hour: 100, minute: 0, second: 0 }),
        None
    );
}

#[test]
fn parse_errors_say_what_is_wrong() {
    assert_eq!(ParseError::Malformed.message(), "input does not match the expected format");
    assert_eq!(ParseError::OutOfRange.message(), "input is out of range");
}
