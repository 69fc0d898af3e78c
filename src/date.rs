//! Calendar date-times: validity, the single-letter field protocol used by
//! templates, and construction from the accepted textual formats.
use chrono::{Datelike, Timelike};
use vstd::prelude::*;
use vstd::string::*;

use crate::render::{decimal, decimal_text, signed_decimal, signed_decimal_text, two_digit_text, two_digits};

verus! {

/// The smallest year that a calendar date may have.
pub const MIN_YEAR: i32 = -262143;

/// The largest year that a calendar date may have.
pub const MAX_YEAR: i32 = 262142;

/// A calendar date-time without a time zone.
#[derive(Clone, Copy, Debug, PartialEq, Eq, PartialOrd, Ord, Hash)]
pub struct DateTime {
    pub year: i32,
    pub month: u32,
    pub day: u32,
    pub hour: u32,
    pub minute: u32,
    pub second: u32,
    /// Nanoseconds within the second; from one billion on it marks a leap second.
    pub nanosecond: u32,
}

/// Why text could not be read as a date-time: the text itself.
#[derive(Clone, Debug, PartialEq, Eq)]
pub struct DateParseError {
    pub input: String,
}

pub open spec fn is_leap_year(y: int) -> bool {
    (y % 4 == 0 && y % 100 != 0) || y % 400 == 0
}

pub open spec fn days_in_month(y: int, m: int) -> int {
    if m == 2 {
        if is_leap_year(y) { 29 } else { 28 }
    } else if m == 4 || m == 6 || m == 9 || m == 11 {
        30
    } else {
        31
    }
}

/// A day of the proleptic Gregorian calendar, within the supported years.
pub open spec fn valid_date(y: int, m: int, d: int) -> bool {
    &&& MIN_YEAR <= y <= MAX_YEAR
    &&& 1 <= m <= 12
    &&& 1 <= d <= days_in_month(y, m)
}

/// A time of day; a nanosecond count of one billion or more marks a leap
/// second.
pub open spec fn valid_time(h: int, mi: int, s: int, ns: int) -> bool {
    &&& 0 <= h < 24
    &&& 0 <= mi < 60
    &&& 0 <= s < 60
    &&& 0 <= ns < 2_000_000_000
}

/// A leap second is only made of the last second of a minute.
pub open spec fn leap_second_placed(s: int, ns: int) -> bool {
    ns >= 1_000_000_000 ==> s == 59
}

/// The number of days from 1 March of year 0 to a date of the proleptic
/// Gregorian calendar; years are counted from March so that a leap day ends
/// the year.
pub open spec fn days_from_march_zero(y: int, m: int, d: int) -> int {
    let ya = if m <= 2 { y - 1 } else { y };
    let ma = if m <= 2 { m + 9 } else { m - 3 };
    365 * ya + ya / 4 - ya / 100 + ya / 400 + (153 * ma + 2) / 5 + d - 1
}

/// The day of the week of a date, counted from Sunday; 1 March of year 0
/// was a Wednesday.
pub open spec fn weekday_of(y: int, m: int, d: int) -> int {
    (days_from_march_zero(y, m, d) + 3) % 7
}

/// What a strict ISO 8601 date-time reading of the text yields.
pub uninterp spec fn iso_datetime_of(s: Seq<char>) -> Option<DateTime>;

/// What a strict ISO 8601 date reading of the text yields, as year, month and day.
pub uninterp spec fn iso_date_of(s: Seq<char>) -> Option<(i32, u32, u32)>;

/// What reading the text with a strftime-style format yields.
pub uninterp spec fn formatted_datetime_of(s: Seq<char>, fmt: Seq<char>) -> Option<DateTime>;

/// What reading the text as a date-time with a UTC offset yields, moved to UTC.
pub uninterp spec fn offset_datetime_utc_of(s: Seq<char>) -> Option<DateTime>;

/// Three-letter English names of the days of the week, from Sunday.
pub open spec fn weekday_abbrev(i: int) -> Seq<char> {
    seq![
        seq!['S', 'u', 'n'],
        seq!['M', 'o', 'n'],
        seq!['T', 'u', 'e'],
        seq!['W', 'e', 'd'],
        seq!['T', 'h', 'u'],
        seq!['F', 'r', 'i'],
        seq!['S', 'a', 't'],
    ][i]
}

/// Three-letter English names of the months, from January at zero.
pub open spec fn month_abbrev(i: int) -> Seq<char> {
    seq![
        seq!['J', 'a', 'n'],
        seq!['F', 'e', 'b'],
        seq!['M', 'a', 'r'],
        seq!['A', 'p', 'r'],
        seq!['M', 'a', 'y'],
        seq!['J', 'u', 'n'],
        seq!['J', 'u', 'l'],
        seq!['A', 'u', 'g'],
        seq!['S', 'e', 'p'],
        seq!['O', 'c', 't'],
        seq!['N', 'o', 'v'],
        seq!['D', 'e', 'c'],
    ][i]
}

/// The text of a single-letter date field, given the weekday of the date;
/// `None` for any other name.
pub open spec fn date_field(dt: DateTime, name: Seq<char>, weekday: int) -> Option<Seq<char>> {
    if name.len() != 1 {
        None
    } else {
        let c = name[0];
        if c == 'y' {
            Some(signed_decimal(dt.year as int))
        } else if c == 'm' {
            Some(two_digits(dt.month as nat))
        } else if c == 'd' {
            Some(two_digits(dt.day as nat))
        } else if c == 'e' {
            Some(decimal(dt.day as nat))
        } else if c == 'H' {
            Some(two_digits(dt.hour as nat))
        } else if c == 'M' {
            Some(two_digits(dt.minute as nat))
        } else if c == 'S' {
            Some(two_digits(dt.second as nat))
        } else if c == 'a' {
            Some(weekday_abbrev(weekday))
        } else if c == 'b' {
            Some(month_abbrev(dt.month - 1))
        } else {
            None
        }
    }
}

/// Relies on chrono's `NaiveDate::from_ymd_opt` and `Weekday::num_days_from_sunday`:
/// a valid date is accepted, and its weekday is that of the proleptic
/// Gregorian calendar, counted from Sunday.
#[verifier::external_body]
fn weekday_from_sunday(year: i32, month: u32, day: u32) -> (r: Option<u32>)
    ensures
        valid_date(year as int, month as int, day as int) ==> r is Some,
        r is Some ==> r->0 < 7 && r->0 == weekday_of(year as int, month as int, day as int),
{
    chrono::NaiveDate::from_ymd_opt(year, month, day).map(|d| d.weekday().num_days_from_sunday())
}

fn weekday_text(i: u32) -> (r: &'static str)
    requires
        i < 7,
    ensures
        r@ == weekday_abbrev(i as int),
{
    let r = match i {
        0 => "Sun",
        1 => "Mon",
        2 => "Tue",
        3 => "Wed",
        4 => "Thu",
        5 => "Fri",
        _ => "Sat",
    };
    proof {
        reveal_strlit("Sun");
        reveal_strlit("Mon");
        reveal_strlit("Tue");
        reveal_strlit("Wed");
        reveal_strlit("Thu");
        reveal_strlit("Fri");
        reveal_strlit("Sat");
        assert(r@ =~= weekday_abbrev(i as int));
    }
    r
}

fn month_text(i: u32) -> (r: &'static str)
    requires
        i < 12,
    ensures
        r@ == month_abbrev(i as int),
{
    let r = match i {
        0 => "Jan",
        1 => "Feb",
        2 => "Mar",
        3 => "Apr",
        4 => "May",
        5 => "Jun",
        6 => "Jul",
        7 => "Aug",
        8 => "Sep",
        9 => "Oct",
        10 => "Nov",
        _ => "Dec",
    };
    proof {
        reveal_strlit("Jan");
        reveal_strlit("Feb");
        reveal_strlit("Mar");
        reveal_strlit("Apr");
        reveal_strlit("May");
        reveal_strlit("Jun");
        reveal_strlit("Jul");
        reveal_strlit("Aug");
        reveal_strlit("Sep");
        reveal_strlit("Oct");
        reveal_strlit("Nov");
        reveal_strlit("Dec");
        assert(r@ =~= month_abbrev(i as int));
    }
    r
}


/// Relies on chrono's `FromStr` for `NaiveDateTime`: the strict ISO 8601
/// reading of a date and time of day, with optional fractional seconds.
#[verifier::external_body]
fn read_iso_datetime(s: &str) -> (r: Option<DateTime>)
    ensures
        r == iso_datetime_of(s@),
        r is Some ==> r->0.wf(),
{
    s.parse::<chrono::NaiveDateTime>().ok().map(|d| DateTime {
        year: d.year(), month: d.month(), day: d.day(), hour: d.hour(),
        minute: d.minute(), second: d.second(), nanosecond: d.nanosecond(),
    })
}

/// Relies on chrono's `FromStr` for `NaiveDate`: the strict ISO 8601 reading
/// of a date, as year, month and day.
#[verifier::external_body]
fn read_iso_date(s: &str) -> (r: Option<(i32, u32, u32)>)
    ensures
        r == iso_date_of(s@),
        r matches Some(t) ==> valid_date(t.0 as int, t.1 as int, t.2 as int),
{
    s.parse::<chrono::NaiveDate>().ok().map(|d| (d.year(), d.month(), d.day()))
}

/// Relies on chrono's `NaiveDateTime::parse_from_str`: the text read with a
/// strftime-style format.
#[verifier::external_body]
fn read_formatted_datetime(s: &str, fmt: &str) -> (r: Option<DateTime>)
    ensures
        r == formatted_datetime_of(s@, fmt@),
        r is Some ==> r->0.wf(),
{
    chrono::NaiveDateTime::parse_from_str(s, fmt).ok().map(|d| DateTime {
        year: d.year(), month: d.month(), day: d.day(), hour: d.hour(),
        minute: d.minute(), second: d.second(), nanosecond: d.nanosecond(),
    })
}

/// Relies on chrono's `FromStr` for `DateTime<FixedOffset>` and on
/// `DateTime::naive_utc`: a date-time with a UTC offset, moved to UTC.
#[verifier::external_body]
fn read_offset_datetime_utc(s: &str) -> (r: Option<DateTime>)
    ensures
        r == offset_datetime_utc_of(s@),
        r is Some ==> r->0.wf(),
{
    s.parse::<chrono::DateTime<chrono::FixedOffset>>().ok().map(|t| t.naive_utc()).map(|d| DateTime {
        year: d.year(), month: d.month(), day: d.day(), hour: d.hour(),
        minute: d.minute(), second: d.second(), nanosecond: d.nanosecond(),
    })
}

/// Relies on `SystemTime::now`, chrono's `From<SystemTime>` for
/// `DateTime<Utc>` (which takes times before 1970 too) and
/// `DateTime::naive_utc`: the current time in UTC is a real date-time.
#[verifier::external_body]
fn utc_now() -> (r: DateTime)
    ensures
        r.wf(),
{
    let d = chrono::DateTime::<chrono::Utc>::from(std::time::SystemTime::now()).naive_utc();
    DateTime {
        year: d.year(), month: d.month(), day: d.day(), hour: d.hour(),
        minute: d.minute(), second: d.second(), nanosecond: d.nanosecond(),
    }
}

/// The format of a date and time of day separated by a space, with optional
/// fractional seconds.
pub const SPACED_FORMAT: &'static str = "%F %T%.f";

/// The start of the message of a failed reading; the text follows it.
pub const PARSE_ERROR_PREFIX: &'static str = "unable to parse date and time from ";

/// A date at midnight.
pub open spec fn at_midnight(d: (i32, u32, u32)) -> DateTime {
    DateTime { year: d.0, month: d.1, day: d.2, hour: 0, minute: 0, second: 0, nanosecond: 0 }
}

/// The first reading that succeeded, in the order the formats are tried:
/// ISO date-time, ISO date at midnight, space-separated date-time, date-time
/// with an offset moved to UTC.
pub open spec fn first_reading(
    iso_datetime: Option<DateTime>,
    iso_date: Option<(i32, u32, u32)>,
    spaced: Option<DateTime>,
    with_offset: Option<DateTime>,
) -> Option<DateTime> {
    if iso_datetime is Some {
        iso_datetime
    } else if iso_date is Some {
        Some(at_midnight(iso_date->0))
    } else if spaced is Some {
        spaced
    } else {
        with_offset
    }
}

/// The reading of a text as a date-time, in terms of what each format yields.
pub open spec fn reading_of(s: Seq<char>) -> Option<DateTime> {
    first_reading(
        iso_datetime_of(s),
        iso_date_of(s),
        formatted_datetime_of(s, SPACED_FORMAT@),
        offset_datetime_utc_of(s),
    )
}

/// The message of a failed reading of `input`.
pub open spec fn parse_error_message(input: Seq<char>) -> Seq<char> {
    PARSE_ERROR_PREFIX@ + input
}

/// A text that no accepted format reads is refused, and the message of the
/// refusal holds the text, in full, at its end.
pub proof fn lemma_failed_reading_names_input(s: Seq<char>)
    requires
        reading_of(s) is None,
    ensures
        parse_error_message(s).subrange(
            parse_error_message(s).len() - s.len(),
            parse_error_message(s).len() as int,
        ) == s,
{
    assert(parse_error_message(s).subrange(
        parse_error_message(s).len() - s.len(),
        parse_error_message(s).len() as int,
    ) =~= s);
}

impl DateParseError {
    /// The message of the failure, which names the text that was read.
    pub fn message(&self) -> (r: String)
        ensures
            r@ == parse_error_message(self.input@),
    {
        String::from_str(PARSE_ERROR_PREFIX).concat(self.input.as_str())
    }
}

impl DateTime {
    /// The value holds a real calendar date and time of day.
    pub open spec fn wf(&self) -> bool {
        &&& valid_date(self.year as int, self.month as int, self.day as int)
        &&& valid_time(self.hour as int, self.minute as int, self.second as int, self.nanosecond as int)
    }


    /// The current time in UTC.
    pub fn now() -> (r: DateTime)
        ensures
            r.wf(),
    {
        utc_now()
    }

    /// Chooses among the readings of `input` in each accepted format: the
    /// first that succeeded, or an error that holds `input`.
    pub fn from_readings(
        iso_datetime: Option<DateTime>,
        iso_date: Option<(i32, u32, u32)>,
        spaced: Option<DateTime>,
        with_offset: Option<DateTime>,
        input: &str,
    ) -> (r: Result<DateTime, DateParseError>)
        ensures
            r is Ok <==> first_reading(iso_datetime, iso_date, spaced, with_offset) is Some,
            r is Ok ==> r->Ok_0 == first_reading(iso_datetime, iso_date, spaced, with_offset)->0,
            r is Err ==> r->Err_0.input@ == input@,
    {
        if let Some(d) = iso_datetime {
            Ok(d)
        } else if let Some((year, month, day)) = iso_date {
            Ok(DateTime { year, month, day, hour: 0, minute: 0, second: 0, nanosecond: 0 })
        } else if let Some(d) = spaced {
            Ok(d)
        } else if let Some(d) = with_offset {
            Ok(d)
        } else {
            Err(DateParseError { input: String::from_str(input) })
        }
    }

    /// Reads a date-time from text in the first accepted format that fits:
    /// `YYYY-MM-DDTHH:MM:SS[.frac]`, `YYYY-MM-DD` (at midnight),
    /// `YYYY-MM-DD HH:MM:SS[.frac]`, or a date-time with a UTC offset, which
    /// is moved to UTC and dropped.
    pub fn parse(s: &str) -> (r: Result<DateTime, DateParseError>)
        ensures
            r is Ok <==> reading_of(s@) is Some,
            r is Ok ==> r->Ok_0 == reading_of(s@)->0 && r->Ok_0.wf(),
            r is Err ==> r->Err_0.input@ == s@,
    {
        let iso_datetime = read_iso_datetime(s);
        if iso_datetime.is_some() {
            return DateTime::from_readings(iso_datetime, None, None, None, s);
        }
        let iso_date = read_iso_date(s);
        if iso_date.is_some() {
            return DateTime::from_readings(None, iso_date, None, None, s);
        }
        let spaced = read_formatted_datetime(s, SPACED_FORMAT);
        if spaced.is_some() {
            return DateTime::from_readings(None, None, spaced, None, s);
        }
        let with_offset = read_offset_datetime_utc(s);
        DateTime::from_readings(None, None, None, with_offset, s)
    }

    /// Whether the value holds a real calendar date and time of day.
    pub fn is_valid(&self) -> (r: bool)
        ensures
            r == self.wf(),
    {
        if self.year < MIN_YEAR || self.year > MAX_YEAR || self.month < 1 || self.month > 12
            || self.day < 1 {
            return false;
        }
        let y = self.year;
        let leap = (y % 4 == 0 && y % 100 != 0) || y % 400 == 0;
        let m = self.month;
        let last: u32 = if m == 2 {
            if leap { 29 } else { 28 }
        } else if m == 4 || m == 6 || m == 9 || m == 11 {
            30
        } else {
            31
        };
        assert(leap == is_leap_year(y as int));
        self.day <= last && self.hour < 24 && self.minute < 60 && self.second < 60
            && self.nanosecond < 2_000_000_000
    }

    /// The date-time from its parts, or `None` where they name no real
    /// instant or put a leap second anywhere but at the end of a minute.
    pub fn new(
        year: i32,
        month: u32,
        day: u32,
        hour: u32,
        minute: u32,
        second: u32,
        nanosecond: u32,
    ) -> (r: Option<DateTime>)
        ensures
            r is Some <==> valid_date(year as int, month as int, day as int) && valid_time(
                hour as int,
                minute as int,
                second as int,
                nanosecond as int,
            ) && leap_second_placed(second as int, nanosecond as int),
            r is Some ==> r->0 == (DateTime { year, month, day, hour, minute, second, nanosecond }),
    {
        if year < MIN_YEAR || year > MAX_YEAR || month < 1 || month > 12 || day < 1 {
            return None;
        }
        let leap = (year % 4 == 0 && year % 100 != 0) || year % 400 == 0;
        let last: u32 = if month == 2 {
            if leap { 29 } else { 28 }
        } else if month == 4 || month == 6 || month == 9 || month == 11 {
            30
        } else {
            31
        };
        assert(leap == is_leap_year(year as int));
        if day > last || hour >= 24 || minute >= 60 || second >= 60 || nanosecond >= 2_000_000_000 {
            return None;
        }
        if nanosecond >= 1_000_000_000 && second != 59 {
            return None;
        }
        Some(DateTime { year, month, day, hour, minute, second, nanosecond })
    }

    /// The text of a single-letter field, given the weekday of the date
    /// counted from Sunday; `None` where the name is not a field.
    pub fn field_text(&self, name: &str, weekday: u32) -> (r: Option<String>)
        requires
            self.wf(),
            weekday < 7,
        ensures
            r is Some <==> date_field(*self, name@, weekday as int) is Some,
            r is Some ==> r->0@ == date_field(*self, name@, weekday as int)->0,
    {
        if name.unicode_len() != 1 {
            return None;
        }
        let c = name.get_char(0);
        if c == 'y' {
            Some(signed_decimal_text(self.year))
        } else if c == 'm' {
            Some(two_digit_text(self.month))
        } else if c == 'd' {
            Some(two_digit_text(self.day))
        } else if c == 'e' {
            Some(decimal_text(self.day))
        } else if c == 'H' {
            Some(two_digit_text(self.hour))
        } else if c == 'M' {
            Some(two_digit_text(self.minute))
        } else if c == 'S' {
            Some(two_digit_text(self.second))
        } else if c == 'a' {
            Some(String::from_str(weekday_text(weekday)))
        } else if c == 'b' {
            Some(String::from_str(month_text(self.month - 1)))
        } else {
            None
        }
    }

    /// Renders the field `name` of the date: `None` where there is no such
    /// field, else the text to write (it never needs escaping).
    pub fn render_field_escaped(&self, name: &str) -> (r: Option<String>)
        requires
            self.wf(),
        ensures
            r is Some <==> date_field(*self, name@, 0) is Some,
            r is Some ==> r->0@ == date_field(
                *self,
                name@,
                weekday_of(self.year as int, self.month as int, self.day as int),
            )->0,
    {
        let weekday = match weekday_from_sunday(self.year, self.month, self.day) {
            Some(w) => w,
            None => {
                assert(false);
                0
            },
        };
        self.field_text(name, weekday)
    }

    /// The same as the escaped rendering: no field text needs escaping.
    pub fn render_field_unescaped(&self, name: &str) -> (r: Option<String>)
        requires
            self.wf(),
        ensures
            r is Some <==> date_field(*self, name@, 0) is Some,
            r is Some ==> r->0@ == date_field(
                *self,
                name@,
                weekday_of(self.year as int, self.month as int, self.day as int),
            )->0,
    {
        self.render_field_escaped(name)
    }
}

} // verus!
