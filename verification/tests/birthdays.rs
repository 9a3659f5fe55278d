use starosta::birthdays::{
    format_birthday, is_announcement_hour, is_valid_birthday, month_label, parse_date,
    BirthdayBook, BirthdayError,
};
use starosta::text::find_only;
use starosta::errors::{birthday_error_kind, ErrorKind};

#[test]
fn calendar_days_are_birthdays() {
    assert!(is_valid_birthday(1, 1));
    assert!(is_valid_birthday(31, 1));
    assert!(is_valid_birthday(29, 2));
    assert!(is_valid_birthday(30, 4));
    assert!(is_valid_birthday(31, 12));
}

#[test]
fn days_that_do_not_exist_are_refused() {
    assert!(!is_valid_birthday(30, 2));
    assert!(!is_valid_birthday(31, 4));
    assert!(!is_valid_birthday(31, 6));
    assert!(!is_valid_birthday(31, 9));
    assert!(!is_valid_birthday(31, 11));
    assert!(!is_valid_birthday(32, 1));
    assert!(!is_valid_birthday(0, 1));
    assert!(!is_valid_birthday(1, 0));
    assert!(!is_valid_birthday(1, 13));
    assert!(!is_valid_birthday(u32::MAX, u32::MAX));
}

#[test]
fn birthdays_are_written_in_two_digits() {
    assert_eq!(format_birthday(5, 3), "05.03");
    assert_eq!(format_birthday(25, 12), "25.12");
    assert_eq!(format_birthday(1, 10), "01.10");
    assert_eq!(format_birthday(0, 0), "00.00");
    assert_eq!(format_birthday(123, 4567), "123.4567");
    assert_eq!(format_birthday(u32::MAX, 9), "4294967295.09");
}

#[test]
fn announcement_is_at_nine() {
    assert!(is_announcement_hour(9));
    assert!(!is_announcement_hour(8));
    assert!(!is_announcement_hour(10));
    assert!(!is_announcement_hour(21));
}

#[test]
fn single_dot_is_found() {
    assert_eq!(find_only("05.03", '.'), Some(2));
    assert_eq!(find_only(".03", '.'), Some(0));
    assert_eq!(find_only("05.", '.'), Some(2));
    assert_eq!(find_only("0503", '.'), None);
    assert_eq!(find_only("05.03.99", '.'), None);
    assert_eq!(find_only("", '.'), None);
    assert_eq!(find_only("я.б", '.'), Some(1));
    assert_eq!(find_only("12:like", ':'), Some(2));
}

#[test]
fn dates_are_read_as_month_and_day() {
    assert_eq!(parse_date("05.03"), (3, 5));
    assert_eq!(parse_date("25.12"), (12, 25));
    assert_eq!(parse_date("+5.+3"), (3, 5));
    assert_eq!(parse_date("5.x"), (0, 5));
    assert_eq!(parse_date("x.3"), (3, 0));
    assert_eq!(parse_date(".3"), (3, 0));
    assert_eq!(parse_date("5."), (0, 5));
    assert_eq!(parse_date("05-03"), (0, 0));
    assert_eq!(parse_date("05.03.2000"), (0, 0));
    assert_eq!(parse_date(""), (0, 0));
    assert_eq!(parse_date("4294967295.1"), (1, u32::MAX));
    assert_eq!(parse_date("4294967296.1"), (1, 0));
    assert_eq!(parse_date("-5.3"), (3, 0));
}

#[test]
fn months_have_short_names() {
    assert_eq!(month_label("01"), "Січ");
    assert_eq!(month_label("2"), "Лют");
    assert_eq!(month_label("03"), "Бер");
    assert_eq!(month_label("04"), "Кві");
    assert_eq!(month_label("05"), "Тра");
    assert_eq!(month_label("06"), "Чер");
    assert_eq!(month_label("07"), "Лип");
    assert_eq!(month_label("08"), "Сер");
    assert_eq!(month_label("09"), "Вер");
    assert_eq!(month_label("10"), "Жов");
    assert_eq!(month_label("11"), "Лис");
    assert_eq!(month_label("12"), "Гру");
    assert_eq!(month_label("13"), "???");
    assert_eq!(month_label("0"), "???");
    assert_eq!(month_label("xx"), "Січ");
    assert_eq!(month_label(""), "Січ");
}

#[test]
fn setting_a_birthday_records_it() {
    let mut book = BirthdayBook::new();
    assert_eq!(book.set(7, 5, 3), Ok("05.03".to_string()));
    assert_eq!(book.len(), 1);
    assert_eq!(book.get(7), Some(&"05.03".to_string()));
    assert_eq!(book.get(8), None);
    assert_eq!(book.set(7, 6, 4), Ok("06.04".to_string()));
    assert_eq!(book.len(), 1);
    assert_eq!(book.get(7), Some(&"06.04".to_string()));
}

#[test]
fn invalid_birthday_changes_nothing() {
    let mut book = BirthdayBook::new();
    assert_eq!(book.set(7, 5, 3), Ok("05.03".to_string()));
    assert_eq!(book.set(7, 30, 2), Err(BirthdayError::InvalidDate));
    assert_eq!(book.set(8, 0, 1), Err(BirthdayError::InvalidDate));
    assert_eq!(book.len(), 1);
    assert_eq!(book.get(7), Some(&"05.03".to_string()));
}

#[test]
fn removing_a_birthday() {
    let mut book = BirthdayBook::new();
    assert!(book.set(7, 5, 3).is_ok());
    assert!(book.set(8, 6, 3).is_ok());
    assert!(book.set(9, 7, 3).is_ok());
    assert_eq!(book.remove(8), Ok(()));
    assert_eq!(book.remove(8), Err(BirthdayError::NotFound));
    assert_eq!(book.len(), 2);
    assert_eq!(book.get(7), Some(&"05.03".to_string()));
    assert_eq!(book.get(9), Some(&"07.03".to_string()));
    assert_eq!(book.remove(1), Err(BirthdayError::NotFound));
}

#[test]
fn celebrants_are_those_born_today() {
    let mut book = BirthdayBook::new();
    assert!(book.set(7, 5, 3).is_ok());
    assert!(book.set(8, 6, 3).is_ok());
    assert!(book.set(9, 5, 3).is_ok());
    book.restore(10, "5.3".to_string());
    let mut today = book.celebrants(5, 3);
    today.sort();
    assert_eq!(today, vec![7, 9]);
    assert_eq!(book.celebrants(6, 3), vec![8]);
    assert!(book.celebrants(3, 5).is_empty());
    assert!(BirthdayBook::new().celebrants(5, 3).is_empty());
}

#[test]
fn calendar_is_in_order_of_month_and_day() {
    let mut book = BirthdayBook::new();
    assert!(book.set(1, 25, 12).is_ok());
    assert!(book.set(2, 5, 3).is_ok());
    assert!(book.set(3, 1, 3).is_ok());
    assert!(book.set(4, 25, 12).is_ok());
    assert!(book.set(5, 31, 1).is_ok());
    book.restore(6, "garbage".to_string());
    book.restore(7, "9.x".to_string());
    let lines = book.calendar();
    let shown: Vec<(u64, &str, &str)> =
        lines.iter().map(|l| (l.user, l.day.as_str(), l.month)).collect();
    assert_eq!(shown.len(), 6);
    assert_eq!(
        shown[..4].to_vec(),
        vec![(7, "9", "Січ"), (5, "31", "Січ"), (3, "01", "Бер"), (2, "05", "Бер")]
    );
    let mut last_day: Vec<(u64, &str, &str)> = shown[4..].to_vec();
    last_day.sort();
    assert_eq!(last_day, vec![(1, "25", "Гру"), (4, "25", "Гру")]);
}

#[test]
fn entries_list_every_member_once() {
    let mut book = BirthdayBook::new();
    assert!(book.entries().is_empty());
    assert!(book.set(3, 1, 2).is_ok());
    assert!(book.set(1, 9, 9).is_ok());
    assert!(book.set(3, 2, 2).is_ok());
    let entries = book.entries();
    let mut listed: Vec<(u64, &str)> =
        entries.iter().map(|e| (e.user, e.date.as_str())).collect();
    listed.sort();
    assert_eq!(listed, vec![(1, "09.09"), (3, "02.02")]);
}

#[test]
fn birthday_errors_have_kinds() {
    assert_eq!(birthday_error_kind(BirthdayError::InvalidDate), ErrorKind::Validation);
    assert_eq!(birthday_error_kind(BirthdayError::NotFound), ErrorKind::NotFound);
}
