//! Release dates of partial precision: a year, a year and a month, or a full
//! day, read into a calendar date that can be put in order.
use crate::text::utf8;
use chrono::Datelike;
use vstd::prelude::*;
use vstd::string::*;

verus! {

/// A day of the calendar.
#[derive(Debug, Clone, Copy, PartialEq, Eq, Structural)]
pub struct CalendarDate {
    pub year: i32,
    pub month: u32,
    pub day: u32,
}

impl CalendarDate {
    /// Calendar order: by year, by month within a year, by day within a month.
    pub open spec fn before(self, other: CalendarDate) -> bool {
        self.year < other.year || (self.year == other.year && (self.month < other.month || (
        self.month == other.month && self.day < other.day)))
    }

    pub fn is_before(&self, other: &CalendarDate) -> (r: bool)
        ensures
            r == self.before(*other),
    {
        self.year < other.year || (self.year == other.year && (self.month < other.month || (
        self.month == other.month && self.day < other.day)))
    }
}

/// The form of a full date: year, month and day with hyphens between them.
pub open spec fn full_date_format() -> Seq<char> {
    "%Y-%m-%d"@
}

/// Calls `chrono::NaiveDate::parse_from_str(text, format)` and reads the
/// date's year, month and day through `Datelike`; an error becomes `None`.
/// The call is made under the format of a full date only, and only for texts
/// in the form of a full date. Of such a text chrono reads the four digits
/// of the year and the two digits each of month and day as they are written,
/// and gives the day that they name where its calendar has that day, else an
/// error.
#[verifier::external_body]
fn chrono_parse(text: &str, format: &str) -> (r: Option<(i32, u32, u32)>)
    requires
        format@ == full_date_format(),
        shape_of(utf8(text@)) == DateShape::Full,
    ensures
        r == written_date(utf8(text@)),
{
    match chrono::NaiveDate::parse_from_str(text, format) {
        Ok(date) => Some((date.year(), date.month(), date.day())),
        Err(_) => None,
    }
}

/// Leap years of the proleptic Gregorian calendar.
pub open spec fn is_leap_year(year: int) -> bool {
    year % 4 == 0 && (year % 100 != 0 || year % 400 == 0)
}

/// The number of days of a month.
pub open spec fn days_in_month(year: int, month: int) -> int {
    if month == 2 {
        if is_leap_year(year) {
            29
        } else {
            28
        }
    } else if month == 4 || month == 6 || month == 9 || month == 11 {
        30
    } else {
        31
    }
}

/// The days that chrono can hold: a day that the proleptic Gregorian calendar
/// has, in a year from -262143 to 262142.
pub open spec fn is_calendar_day(year: int, month: int, day: int) -> bool {
    &&& -262143 <= year <= 262142
    &&& 1 <= month <= 12
    &&& 1 <= day <= days_in_month(year, month)
}

/// Calls `chrono::NaiveDate::from_ymd_opt(year, month, day)` and reads the
/// date back through `Datelike`. chrono documents that it returns `None` where
/// the day does not exist in the calendar, where month or day is invalid, and
/// where the year is out of its range; otherwise the date holds the three
/// numbers given.
#[verifier::external_body]
fn chrono_from_ymd(year: i32, month: u32, day: u32) -> (r: Option<(i32, u32, u32)>)
    ensures
        r == if is_calendar_day(year as int, month as int, day as int) {
            Some((year, month, day))
        } else {
            None::<(i32, u32, u32)>
        },
{
    match chrono::NaiveDate::from_ymd_opt(year, month, day) {
        Some(date) => Some((date.year(), date.month(), date.day())),
        None => None,
    }
}

/// The calendar date of three numbers.
pub open spec fn date_of(ymd: (i32, u32, u32)) -> CalendarDate {
    CalendarDate { year: ymd.0, month: ymd.1, day: ymd.2 }
}

/// The calendar date of three numbers, where there are any.
pub open spec fn date_of_option(ymd: Option<(i32, u32, u32)>) -> Option<CalendarDate> {
    match ymd {
        Some(t) => Some(date_of(t)),
        None => None,
    }
}

/// Tells whether a byte is an ASCII digit.
pub open spec fn is_digit(b: u8) -> bool {
    48 <= b <= 57
}

/// Tells whether the bytes of a text from `from` up to `to` are all digits.
pub open spec fn all_digits(bytes: Seq<u8>, from: int, to: int) -> bool {
    forall|i: int| from <= i < to ==> is_digit(#[trigger] bytes[i])
}

/// The forms in which a date is written.
#[derive(Debug, Clone, Copy, PartialEq, Eq, Structural)]
pub enum DateShape {
    /// Year, month and day: `YYYY-MM-DD`.
    Full,
    /// Year and month: `YYYY-MM`.
    YearMonth,
    /// A year: `YYYY`.
    Year,
    /// None of the three.
    Unreadable,
}

/// The form of a text. A date is written in digits, four for the year and two
/// each for month and day, with a hyphen between the parts and nothing before
/// or behind them.
pub open spec fn shape_of(bytes: Seq<u8>) -> DateShape {
    if bytes.len() == 10 && all_digits(bytes, 0, 4) && bytes[4] == 45 && all_digits(bytes, 5, 7)
        && bytes[7] == 45 && all_digits(bytes, 8, 10) {
        DateShape::Full
    } else if bytes.len() == 7 && all_digits(bytes, 0, 4) && bytes[4] == 45 && all_digits(
        bytes,
        5,
        7,
    ) {
        DateShape::YearMonth
    } else if bytes.len() == 4 && all_digits(bytes, 0, 4) {
        DateShape::Year
    } else {
        DateShape::Unreadable
    }
}

/// The year that the first four bytes of a text write.
pub open spec fn written_year(bytes: Seq<u8>) -> int {
    1000 * (bytes[0] - 48) + 100 * (bytes[1] - 48) + 10 * (bytes[2] - 48) + (bytes[3] - 48)
}

/// The month that the sixth and seventh byte of a text write.
pub open spec fn written_month(bytes: Seq<u8>) -> int {
    10 * (bytes[5] - 48) + (bytes[6] - 48)
}

/// The day that the ninth and tenth byte of a text write.
pub open spec fn written_day(bytes: Seq<u8>) -> int {
    10 * (bytes[8] - 48) + (bytes[9] - 48)
}

/// The day that a text in the form of a full date names: year, month and day
/// as they are written, where the calendar has that day.
pub open spec fn written_date(bytes: Seq<u8>) -> Option<(i32, u32, u32)> {
    if is_calendar_day(written_year(bytes), written_month(bytes), written_day(bytes)) {
        Some(
            (written_year(bytes) as i32, written_month(bytes) as u32, written_day(bytes) as u32),
        )
    } else {
        None
    }
}

/// The bytes of the text `-01`, which stands behind a year and a month to
/// make a full date of them.
pub open spec fn first_day_suffix() -> Seq<u8> {
    seq![45u8, 48u8, 49u8]
}

/// The date of a text, given what chrono has read: of the text itself where
/// it is a full date, and of the text with `-01` behind it where it is a year
/// and a month. A year alone stands for its first of January, whatever was
/// read; a text of no form stands for no date, whatever was read.
pub open spec fn resolved(bytes: Seq<u8>, reading: Option<(i32, u32, u32)>) -> Option<
    CalendarDate,
> {
    match shape_of(bytes) {
        DateShape::Full => date_of_option(reading),
        DateShape::YearMonth => date_of_option(reading),
        DateShape::Year => Some(
            CalendarDate { year: written_year(bytes) as i32, month: 1, day: 1 },
        ),
        DateShape::Unreadable => None,
    }
}

/// What chrono is asked to read for a text: the text itself where it is a
/// full date, the text with `-01` behind it where it is a year and a month,
/// and nothing otherwise.
pub open spec fn reading_of(bytes: Seq<u8>) -> Option<(i32, u32, u32)> {
    match shape_of(bytes) {
        DateShape::Full => written_date(bytes),
        DateShape::YearMonth => written_date(bytes + first_day_suffix()),
        _ => None,
    }
}

/// The date that a text of partial precision stands for.
///
/// A text in the form of a full date stands for the day that it names, where
/// the calendar has that day; one in the form of year and month stands for
/// the first day of that month, where the year has that month; one in the
/// form of a year stands for the first of January of that year. Every other
/// text, the empty one among them, stands for no date.
pub open spec fn parsed_date(text: Seq<char>) -> Option<CalendarDate> {
    resolved(utf8(text), reading_of(utf8(text)))
}

/// A year and a month with `-01` behind them have the form of a full date,
/// with the same year and month and the day 1.
pub proof fn lemma_padded_is_full(bytes: Seq<u8>)
    requires
        shape_of(bytes) == DateShape::YearMonth,
    ensures
        shape_of(bytes + first_day_suffix()) == DateShape::Full,
        written_year(bytes + first_day_suffix()) == written_year(bytes),
        written_month(bytes + first_day_suffix()) == written_month(bytes),
        written_day(bytes + first_day_suffix()) == 1,
{
    let padded = bytes + first_day_suffix();
    assert(padded.len() == 10);
    assert forall|i: int| 0 <= i < 7 implies padded[i] == bytes[i] by {}
    assert(padded[7] == 45 && padded[8] == 48 && padded[9] == 49);
    assert(all_digits(padded, 0, 4)) by {
        assert forall|i: int| 0 <= i < 4 implies is_digit(#[trigger] padded[i]) by {
            assert(is_digit(bytes[i]));
        }
    }
    assert(all_digits(padded, 5, 7)) by {
        assert forall|i: int| 5 <= i < 7 implies is_digit(#[trigger] padded[i]) by {
            assert(is_digit(bytes[i]));
        }
    }
    assert(all_digits(padded, 8, 10));
}

fn digits_at(bytes: &[u8], from: usize, to: usize) -> (r: bool)
    requires
        from <= to <= bytes@.len(),
    ensures
        r == all_digits(bytes@, from as int, to as int),
{
    let mut i: usize = from;
    while i < to
        invariant
            from <= i <= to,
            to <= bytes@.len(),
            all_digits(bytes@, from as int, i as int),
        decreases to - i,
    {
        if bytes[i] < 48 || bytes[i] > 57 {
            return false;
        }
        i = i + 1;
    }
    true
}

/// Tells the form of a text.
pub fn date_shape(value: &str) -> (r: DateShape)
    ensures
        r == shape_of(utf8(value@)),
{
    let bytes = value.as_bytes();
    let n: usize = bytes.len();
    if n == 10 {
        if digits_at(bytes, 0, 4) && bytes[4] == 45 && digits_at(bytes, 5, 7) && bytes[7] == 45
            && digits_at(bytes, 8, 10) {
            DateShape::Full
        } else {
            DateShape::Unreadable
        }
    } else if n == 7 {
        if digits_at(bytes, 0, 4) && bytes[4] == 45 && digits_at(bytes, 5, 7) {
            DateShape::YearMonth
        } else {
            DateShape::Unreadable
        }
    } else if n == 4 {
        if digits_at(bytes, 0, 4) {
            DateShape::Year
        } else {
            DateShape::Unreadable
        }
    } else {
        DateShape::Unreadable
    }
}

fn to_date(ymd: Option<(i32, u32, u32)>) -> (r: Option<CalendarDate>)
    ensures
        r == date_of_option(ymd),
{
    match ymd {
        Some(t) => Some(CalendarDate { year: t.0, month: t.1, day: t.2 }),
        None => None,
    }
}

/// Settles the date of a text, given what chrono has read for it.
pub fn resolve_date(value: &str, reading: Option<(i32, u32, u32)>) -> (r: Option<CalendarDate>)
    ensures
        r == resolved(utf8(value@), reading),
{
    match date_shape(value) {
        DateShape::Full => to_date(reading),
        DateShape::YearMonth => to_date(reading),
        DateShape::Year => {
            let bytes = value.as_bytes();
            assert(is_digit(bytes@[0]) && is_digit(bytes@[1]) && is_digit(bytes@[2]) && is_digit(
                bytes@[3],
            ));
            let year: i32 = 1000 * ((bytes[0] - 48) as i32) + 100 * ((bytes[1] - 48) as i32) + 10
                * ((bytes[2] - 48) as i32) + ((bytes[3] - 48) as i32);
            to_date(chrono_from_ymd(year, 1, 1))
        },
        DateShape::Unreadable => None,
    }
}

/// Reads a date of partial precision. A text that is no date gives `None`:
/// that is an ordinary answer, not a failure.
pub fn parse_date(value: &str) -> (r: Option<CalendarDate>)
    ensures
        r == parsed_date(value@),
{
    let reading = match date_shape(value) {
        DateShape::Full => chrono_parse(value, "%Y-%m-%d"),
        DateShape::YearMonth => {
            let mut padded = String::from_str(value);
            padded.append("-01");
            proof {
                reveal_strlit("-01");
                crate::text::lemma_utf8_concat(value@, "-01"@);
                vstd::utf8::is_ascii_chars_encode_utf8("-01"@);
                assert(utf8("-01"@) =~= first_day_suffix());
                lemma_padded_is_full(utf8(value@));
            }
            chrono_parse(padded.as_str(), "%Y-%m-%d")
        },
        _ => None,
    };
    resolve_date(value, reading)
}

} // verus!
