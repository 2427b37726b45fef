use mb_library::dates::{date_shape, parse_date, resolve_date, CalendarDate, DateShape};

fn day(year: i32, month: u32, day: u32) -> Option<CalendarDate> {
    Some(CalendarDate { year, month, day })
}

#[test]
fn year_alone_is_its_first_of_january() {
    assert_eq!(parse_date("2020"), day(2020, 1, 1));
}

#[test]
fn year_and_month_is_the_first_of_the_month() {
    assert_eq!(parse_date("2020-05"), day(2020, 5, 1));
}

#[test]
fn full_date_is_read_exactly() {
    assert_eq!(parse_date("2020-05-17"), day(2020, 5, 17));
}

#[test]
fn empty_text_is_no_date() {
    assert_eq!(parse_date(""), None);
}

#[test]
fn words_are_no_date() {
    assert_eq!(parse_date("not-a-date"), None);
}

#[test]
fn month_thirteen_is_no_date() {
    assert_eq!(parse_date("2020-13"), None);
}

#[test]
fn thirtieth_of_february_is_no_date() {
    assert_eq!(parse_date("2020-02-30"), None);
}

#[test]
fn leap_day_is_read_in_a_leap_year_only() {
    assert_eq!(parse_date("2020-02-29"), day(2020, 2, 29));
    assert_eq!(parse_date("2019-02-29"), None);
}

#[test]
fn four_bytes_with_a_sign_are_no_year() {
    assert_eq!(parse_date("-123"), None);
    assert_eq!(parse_date("+123"), None);
}

#[test]
fn years_run_from_0000_to_9999() {
    assert_eq!(parse_date("0000"), day(0, 1, 1));
    assert_eq!(parse_date("0001"), day(1, 1, 1));
    assert_eq!(parse_date("9999"), day(9999, 1, 1));
    assert_eq!(parse_date("0000-02-29"), day(0, 2, 29));
}

#[test]
fn one_digit_month_or_day_is_no_date() {
    assert_eq!(parse_date("2020-5-17"), None);
    assert_eq!(parse_date("2020-05-7"), None);
    assert_eq!(parse_date("2020-5-7"), None);
    assert_eq!(parse_date("2020-5"), None);
    assert_eq!(parse_date("202-05-17"), None);
}

#[test]
fn nothing_may_stand_around_a_date() {
    assert_eq!(parse_date(" 2020-05-17"), None);
    assert_eq!(parse_date("2020-05-17 "), None);
    assert_eq!(parse_date("+2020-05-17"), None);
    assert_eq!(parse_date("-020-05-17"), None);
    assert_eq!(parse_date(" 2020-05"), None);
    assert_eq!(parse_date("2020-05\n"), None);
    assert_eq!(parse_date(" 202"), None);
}

#[test]
fn other_signs_between_the_parts_are_no_date() {
    assert_eq!(parse_date("2020/05/17"), None);
    assert_eq!(parse_date("2020.05.17"), None);
    assert_eq!(parse_date("2020-05_17"), None);
    assert_eq!(parse_date("2020 05"), None);
    assert_eq!(parse_date("20200517"), None);
}

#[test]
fn month_and_day_must_exist() {
    assert_eq!(parse_date("2020-00"), None);
    assert_eq!(parse_date("2020-00-10"), None);
    assert_eq!(parse_date("2020-01-00"), None);
    assert_eq!(parse_date("2020-04-31"), None);
    assert_eq!(parse_date("2020-12-31"), day(2020, 12, 31));
    assert_eq!(parse_date("2020-12"), day(2020, 12, 1));
}

#[test]
fn shapes_are_told_apart() {
    assert_eq!(date_shape("2020-05-17"), DateShape::Full);
    assert_eq!(date_shape("9999-99-99"), DateShape::Full);
    assert_eq!(date_shape("2020-05"), DateShape::YearMonth);
    assert_eq!(date_shape("2020"), DateShape::Year);
    assert_eq!(date_shape(""), DateShape::Unreadable);
    assert_eq!(date_shape("2020-5-17"), DateShape::Unreadable);
    assert_eq!(date_shape("2020-05-1x"), DateShape::Unreadable);
    assert_eq!(date_shape("2020x05"), DateShape::Unreadable);
    assert_eq!(date_shape("20 0"), DateShape::Unreadable);
    assert_eq!(date_shape("２０２０"), DateShape::Unreadable);
    assert_eq!(date_shape("2020-05-17T"), DateShape::Unreadable);
}

#[test]
fn date_is_settled_from_shape_and_reading() {
    let read = Some((2020, 5, 17));
    assert_eq!(resolve_date("2020-05-17", read), day(2020, 5, 17));
    assert_eq!(resolve_date("2020-05-17", None), None);
    assert_eq!(resolve_date("2020-05", Some((2020, 5, 1))), day(2020, 5, 1));
    assert_eq!(resolve_date("2020-13", None), None);
    // a year needs no reading, and a text of no form is no date whatever was read
    assert_eq!(resolve_date("2020", None), day(2020, 1, 1));
    assert_eq!(resolve_date("2020", read), day(2020, 1, 1));
    assert_eq!(resolve_date("2020-5-17", read), None);
    assert_eq!(resolve_date("", read), None);
}

#[test]
fn four_bytes_with_a_letter_are_no_year() {
    assert_eq!(parse_date("12a4"), None);
    assert_eq!(parse_date("+-12"), None);
    assert_eq!(parse_date("20 0"), None);
}

#[test]
fn other_lengths_are_no_date() {
    assert_eq!(parse_date("202"), None);
    assert_eq!(parse_date("20200"), None);
    assert_eq!(parse_date("2020-0"), None);
    assert_eq!(parse_date("2020-05-17T00:00"), None);
}

#[test]
fn text_after_a_full_date_is_no_date() {
    assert_eq!(parse_date("2020-05-01z"), None);
}

#[test]
fn wide_digits_are_no_year() {
    assert_eq!(parse_date("２０２０"), None);
    assert_eq!(parse_date("é20"), None);
}

#[test]
fn calendar_order_goes_by_year_month_day() {
    let a = CalendarDate { year: 2020, month: 5, day: 1 };
    let b = CalendarDate { year: 2020, month: 5, day: 17 };
    let c = CalendarDate { year: 2019, month: 12, day: 31 };
    assert!(a.is_before(&b));
    assert!(!b.is_before(&a));
    assert!(c.is_before(&a));
    assert!(!a.is_before(&a));
    assert!(CalendarDate { year: 2020, month: 4, day: 30 }.is_before(&a));
}
