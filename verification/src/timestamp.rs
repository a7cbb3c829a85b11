//! Calendar date and time of day, and its stored text form.
//!
//! A timestamp is stored as the 19 characters `YYYY-MM-DD HH:MM:SS`: 24-hour
//! clock, every field zero-padded, no time zone, whole seconds. Anything below
//! a second is dropped when the text is written. A leap second is written as
//! second `60` and read back as second 59 with a nanosecond part of one
//! thousand million, which is how chrono holds it.

use chrono::{Datelike, NaiveDate, NaiveDateTime, Timelike};
use vstd::prelude::*;

verus! {

/// The stored layout of a timestamp, in chrono's notation.
pub const TIMESTAMP_FORMAT: &'static str = "%Y-%m-%d %H:%M:%S";

/// Nanoseconds in a second; a nanosecond part at or above it marks a leap second.
pub const NANOS_PER_SECOND: u32 = 1_000_000_000;

/// Whether `year` has a 29th of February in the proleptic Gregorian calendar.
pub open spec fn is_leap_year(year: int) -> bool {
    year % 4 == 0 && (year % 100 != 0 || year % 400 == 0)
}

/// Number of days of `month` (1 to 12) in `year`.
pub open spec fn days_in_month(year: int, month: int) -> int {
    if month == 2 {
        if is_leap_year(year) {
            29
        } else {
            28
        }
    } else if month == 4 || month == 6 || month == 9 || month == 11 {
        30
    } else {
        31
    }
}

/// The fields of a timestamp as mathematical integers.
pub struct TimestampView {
    pub year: int,
    pub month: int,
    pub day: int,
    pub hour: int,
    pub minute: int,
    pub second: int,
    pub nanosecond: int,
}

impl TimestampView {
    /// The fields name a day that exists, in a year of four digits, and a time
    /// of that day. The nanosecond part reaches a second or more only during
    /// second 59, where it stands for a leap second.
    pub open spec fn valid(self) -> bool {
        &&& 0 <= self.year <= 9999
        &&& 1 <= self.month <= 12
        &&& 1 <= self.day <= days_in_month(self.year, self.month)
        &&& 0 <= self.hour <= 23
        &&& 0 <= self.minute <= 59
        &&& 0 <= self.second <= 59
        &&& 0 <= self.nanosecond < 2 * NANOS_PER_SECOND
        &&& self.nanosecond >= NANOS_PER_SECOND ==> self.second == 59
    }

    /// The second as it is written: 60 during a leap second.
    pub open spec fn written_second(self) -> int {
        self.second + self.nanosecond / (NANOS_PER_SECOND as int)
    }

    /// The same instant cut down to the whole second. A leap second stays one.
    pub open spec fn truncated(self) -> TimestampView {
        TimestampView {
            nanosecond: if self.nanosecond >= NANOS_PER_SECOND {
                NANOS_PER_SECOND as int
            } else {
                0
            },
            ..self
        }
    }
}

/// Whether `c` is one of `0` to `9`.
pub open spec fn is_digit(c: char) -> bool {
    '0' <= c <= '9'
}

/// The number a decimal digit stands for.
pub open spec fn digit_value(c: char) -> int {
    c as int - '0' as int
}

/// The decimal digit for a number from 0 to 9.
pub open spec fn digit_char(d: int) -> char {
    (d + '0' as int) as char
}

/// `n` below 100 written with two digits.
pub open spec fn two_digits(n: int) -> Seq<char> {
    seq![digit_char(n / 10), digit_char(n % 10)]
}

/// `n` below 10000 written with four digits: the hundreds, then the rest.
pub open spec fn four_digits(n: int) -> Seq<char> {
    two_digits(n / 100) + two_digits(n % 100)
}

/// The stored text of a timestamp.
pub open spec fn timestamp_text(t: TimestampView) -> Seq<char> {
    four_digits(t.year) + seq!['-'] + two_digits(t.month) + seq!['-'] + two_digits(t.day)
        + seq![' '] + two_digits(t.hour) + seq![':'] + two_digits(t.minute) + seq![':']
        + two_digits(t.written_second())
}

/// The character that the layout puts at position `i`, where it fixes one.
pub open spec fn separator_at(i: int) -> Option<char> {
    if i == 4 || i == 7 {
        Some('-')
    } else if i == 10 {
        Some(' ')
    } else if i == 13 || i == 16 {
        Some(':')
    } else {
        None
    }
}

/// Whether `s` has the layout `YYYY-MM-DD HH:MM:SS`: 19 characters, the
/// separators in their places and a digit everywhere else.
pub open spec fn is_timestamp_text(s: Seq<char>) -> bool {
    &&& s.len() == 19
    &&& forall|i: int|
        0 <= i < 19 ==> match separator_at(i) {
            Some(c) => #[trigger] s[i] == c,
            None => is_digit(s[i]),
        }
}

/// The number written by the two digits of `s` that start at `i`.
pub open spec fn two_at(s: Seq<char>, i: int) -> int {
    digit_value(s[i]) * 10 + digit_value(s[i + 1])
}

/// The number written by the four digits of `s` that start at `i`.
pub open spec fn four_at(s: Seq<char>, i: int) -> int {
    two_at(s, i) * 100 + two_at(s, i + 2)
}

/// The fields that a text of the stored layout writes down.
pub open spec fn text_fields(s: Seq<char>) -> TimestampView {
    let second = two_at(s, 17);
    TimestampView {
        year: four_at(s, 0),
        month: two_at(s, 5),
        day: two_at(s, 8),
        hour: two_at(s, 11),
        minute: two_at(s, 14),
        second: if second == 60 {
            59
        } else {
            second
        },
        nanosecond: if second == 60 {
            NANOS_PER_SECOND as int
        } else {
            0
        },
    }
}

/// Why a text is not a timestamp.
#[derive(Clone, Copy, Debug, PartialEq, Eq, Structural)]
pub enum ParseError {
    /// The text does not have the layout `YYYY-MM-DD HH:MM:SS`.
    Malformed,
    /// The layout is right, but the fields name no day or no time of day.
    OutOfRange,
}

pub const MALFORMED_TIMESTAMP: &'static str = "the text does not read YYYY-MM-DD HH:MM:SS";

pub const TIMESTAMP_OUT_OF_RANGE: &'static str = "the text names no day or no time of day";

impl ParseError {
    /// The error in words.
    pub fn message(&self) -> (message: &'static str)
        ensures
            message@ == match *self {
                ParseError::Malformed => MALFORMED_TIMESTAMP@,
                ParseError::OutOfRange => TIMESTAMP_OUT_OF_RANGE@,
            },
    {
        match self {
            ParseError::Malformed => MALFORMED_TIMESTAMP,
            ParseError::OutOfRange => TIMESTAMP_OUT_OF_RANGE,
        }
    }
}

/// What reading a stored text gives.
pub open spec fn parse_timestamp(s: Seq<char>) -> Result<TimestampView, ParseError> {
    if !is_timestamp_text(s) {
        Err(ParseError::Malformed)
    } else if !text_fields(s).valid() {
        Err(ParseError::OutOfRange)
    } else {
        Ok(text_fields(s))
    }
}

/// Seven machine integers as the fields of a timestamp.
pub open spec fn fields_of(
    year: i32,
    month: u32,
    day: u32,
    hour: u32,
    minute: u32,
    second: u32,
    nanosecond: u32,
) -> TimestampView {
    TimestampView {
        year: year as int,
        month: month as int,
        day: day as int,
        hour: hour as int,
        minute: minute as int,
        second: second as int,
        nanosecond: nanosecond as int,
    }
}

/// A calendar date with a time of day, without time zone. Its fields always
/// name a day that exists, in a year from 0 to 9999, and a time of that day.
#[derive(Clone, Copy, Debug, PartialEq, Eq)]
pub struct Timestamp {
    year: i32,
    month: u32,
    day: u32,
    hour: u32,
    minute: u32,
    second: u32,
    nanosecond: u32,
}

impl View for Timestamp {
    type V = TimestampView;

    closed spec fn view(&self) -> TimestampView {
        fields_of(
            self.year,
            self.month,
            self.day,
            self.hour,
            self.minute,
            self.second,
            self.nanosecond,
        )
    }
}

/// Number of days of `month` in `year`, for a month from 1 to 12.
fn month_length(year: i32, month: u32) -> (days: u32)
    requires
        0 <= year <= 9999,
    ensures
        days == days_in_month(year as int, month as int),
{
    if month == 2 {
        if year % 4 == 0 && (year % 100 != 0 || year % 400 == 0) {
            29
        } else {
            28
        }
    } else if month == 4 || month == 6 || month == 9 || month == 11 {
        30
    } else {
        31
    }
}

impl Timestamp {
    #[verifier::type_invariant]
    spec fn well_formed(self) -> bool {
        self@.valid()
    }

    /// Builds a timestamp from its fields, if they name a day that exists in a
    /// year from 0 to 9999 and a time of that day.
    pub fn new(
        year: i32,
        month: u32,
        day: u32,
        hour: u32,
        minute: u32,
        second: u32,
        nanosecond: u32,
    ) -> (timestamp: Option<Timestamp>)
        ensures
            match timestamp {
                Some(t) => t@.valid() && t@ == fields_of(
                    year,
                    month,
                    day,
                    hour,
                    minute,
                    second,
                    nanosecond,
                ),
                None => !fields_of(year, month, day, hour, minute, second, nanosecond).valid(),
            },
    {
        if year < 0 || year > 9999 || month < 1 || month > 12 || day < 1 {
            return None;
        }
        if day > month_length(year, month) || hour > 23 || minute > 59 || second > 59 {
            return None;
        }
        if nanosecond >= 2 * NANOS_PER_SECOND || (nanosecond >= NANOS_PER_SECOND && second != 59) {
            return None;
        }
        Some(Timestamp { year, month, day, hour, minute, second, nanosecond })
    }

    /// The year, from 0 to 9999.
    pub fn year(&self) -> (year: i32)
        ensures
            year == self@.year,
    {
        self.year
    }

    /// The month, from 1 to 12.
    pub fn month(&self) -> (month: u32)
        ensures
            month == self@.month,
    {
        self.month
    }

    /// The day of the month, from 1.
    pub fn day(&self) -> (day: u32)
        ensures
            day == self@.day,
    {
        self.day
    }

    /// The hour, from 0 to 23.
    pub fn hour(&self) -> (hour: u32)
        ensures
            hour == self@.hour,
    {
        self.hour
    }

    /// The minute, from 0 to 59.
    pub fn minute(&self) -> (minute: u32)
        ensures
            minute == self@.minute,
    {
        self.minute
    }

    /// The second, from 0 to 59.
    pub fn second(&self) -> (second: u32)
        ensures
            second == self@.second,
    {
        self.second
    }

    /// Nanoseconds since the whole second; one thousand million or more
    /// during a leap second.
    pub fn nanosecond(&self) -> (nanosecond: u32)
        ensures
            nanosecond == self@.nanosecond,
    {
        self.nanosecond
    }

    /// Two timestamps with the same fields are the same timestamp.
    pub proof fn lemma_same_fields(self, other: Timestamp)
        requires
            self@ == other@,
        ensures
            self == other,
    {
    }

    /// The stored text of the timestamp. Whatever lies below the second is
    /// left out.
    pub fn encode(&self) -> (text: String)
        ensures
            text@ == timestamp_text(self@),
    {
        proof {
            use_type_invariant(self);
        }
        format_date_time(
            self.year,
            self.month,
            self.day,
            self.hour,
            self.minute,
            self.second,
            self.nanosecond,
        )
    }

    /// Reads a stored text. It succeeds on the texts of the stored layout whose
    /// fields name a day and a time, and on no other text.
    pub fn decode(text: &str) -> (timestamp: Result<Timestamp, ParseError>)
        ensures
            match parse_timestamp(text@) {
                Ok(fields) => timestamp matches Ok(t) && t@ == fields,
                Err(error) => timestamp == Err::<Timestamp, ParseError>(error),
            },
    {
        if !has_timestamp_layout(text) {
            return Err(ParseError::Malformed);
        }
        match parse_date_time(text) {
            Some((year, month, day, hour, minute, second, nanosecond)) => Ok(
                Timestamp { year, month, day, hour, minute, second, nanosecond },
            ),
            None => Err(ParseError::OutOfRange),
        }
    }
}

/// Whether `text` has the stored layout.
fn has_timestamp_layout(text: &str) -> (layout: bool)
    ensures
        layout == is_timestamp_text(text@),
{
    if text.unicode_len() != 19 {
        return false;
    }
    let mut i: usize = 0;
    while i < 19
        invariant
            i <= 19,
            text@.len() == 19,
            forall|j: int|
                0 <= j < i ==> match separator_at(j) {
                    Some(c) => #[trigger] text@[j] == c,
                    None => is_digit(text@[j]),
                },
        decreases 19 - i,
    {
        let c = text.get_char(i);
        let fits = if i == 4 || i == 7 {
            c == '-'
        } else if i == 10 {
            c == ' '
        } else if i == 13 || i == 16 {
            c == ':'
        } else {
            '0' <= c && c <= '9'
        };
        if !fits {
            return false;
        }
        i += 1;
    }
    true
}

/// chrono's `NaiveDateTime::format` with [`TIMESTAMP_FORMAT`], on the
/// date and time that chrono's `NaiveDate::from_ymd_opt` and
/// `NaiveDate::and_hms_nano_opt` build from the fields.
///
/// Trusted: for valid fields chrono builds the value, and writes the year with
/// four digits, every other field with two, zero-padded, with the separators of
/// the format between them, and the second as 60 during a leap second.
#[verifier::external_body]
fn format_date_time(
    year: i32,
    month: u32,
    day: u32,
    hour: u32,
    minute: u32,
    second: u32,
    nanosecond: u32,
) -> (text: String)
    requires
        fields_of(year, month, day, hour, minute, second, nanosecond).valid(),
    ensures
        text@ == timestamp_text(fields_of(year, month, day, hour, minute, second, nanosecond)),
{
    let date = NaiveDate::from_ymd_opt(year, month, day).expect("a day that exists");
    let date_time: NaiveDateTime = date.and_hms_nano_opt(hour, minute, second, nanosecond).expect(
        "a time of day",
    );
    date_time.format(TIMESTAMP_FORMAT).to_string()
}

/// chrono's `NaiveDateTime::parse_from_str` with [`TIMESTAMP_FORMAT`], on a
/// text of the stored layout; the value it gives is handed back by its fields.
///
/// Trusted: on such a text chrono reads each field from its digits, accepts
/// exactly the fields that name a day that exists and a time of day, with
/// second 60 read as a leap second, and its accessors give those fields back.
#[verifier::external_body]
fn parse_date_time(text: &str) -> (fields: Option<(i32, u32, u32, u32, u32, u32, u32)>)
    requires
        is_timestamp_text(text@),
    ensures
        fields is Some <==> text_fields(text@).valid(),
        fields matches Some(f) ==> text_fields(text@) == fields_of(
            f.0,
            f.1,
            f.2,
            f.3,
            f.4,
            f.5,
            f.6,
        ),
{
    let t = NaiveDateTime::parse_from_str(text, TIMESTAMP_FORMAT).ok()?;
    Some((t.year(), t.month(), t.day(), t.hour(), t.minute(), t.second(), t.nanosecond()))
}

/// A number from 0 to 9 and its digit stand for each other.
proof fn lemma_digit(d: int)
    requires
        0 <= d <= 9,
    ensures
        is_digit(digit_char(d)),
        digit_value(digit_char(d)) == d,
{
}

/// A digit is the digit of its value.
proof fn lemma_digit_of_value(c: char)
    requires
        is_digit(c),
    ensures
        0 <= digit_value(c) <= 9,
        digit_char(digit_value(c)) == c,
{
}

/// Tens and ones of a number below 100.
proof fn lemma_tens_and_ones(n: int)
    requires
        0 <= n <= 99,
    ensures
        0 <= n / 10 <= 9,
        0 <= n % 10 <= 9,
        (n / 10) * 10 + n % 10 == n,
{
}

/// A number put together from tens and ones has them.
proof fn lemma_tens_and_ones_of(tens: int, ones: int)
    requires
        0 <= tens <= 9,
        0 <= ones <= 9,
    ensures
        (tens * 10 + ones) / 10 == tens,
        (tens * 10 + ones) % 10 == ones,
{
}

/// Hundreds and rest of a number below 10000.
proof fn lemma_hundreds_and_rest(n: int)
    requires
        0 <= n <= 9999,
    ensures
        0 <= n / 100 <= 99,
        0 <= n % 100 <= 99,
        (n / 100) * 100 + n % 100 == n,
{
}

/// A number put together from hundreds and rest has them.
proof fn lemma_hundreds_and_rest_of(hundreds: int, rest: int)
    requires
        0 <= hundreds <= 99,
        0 <= rest <= 99,
    ensures
        (hundreds * 100 + rest) / 100 == hundreds,
        (hundreds * 100 + rest) % 100 == rest,
{
}

/// The two digits written for a number below 100 are digits, and write it.
proof fn lemma_two_digits(n: int)
    requires
        0 <= n <= 99,
    ensures
        two_digits(n).len() == 2,
        is_digit(two_digits(n)[0]),
        is_digit(two_digits(n)[1]),
        two_at(two_digits(n), 0) == n,
{
    lemma_tens_and_ones(n);
    lemma_digit(n / 10);
    lemma_digit(n % 10);
}

/// Two digits are the two digits of the number they write.
proof fn lemma_two_digits_written(tens: char, ones: char)
    requires
        is_digit(tens),
        is_digit(ones),
    ensures
        0 <= digit_value(tens) * 10 + digit_value(ones) <= 99,
        two_digits(digit_value(tens) * 10 + digit_value(ones)) =~= seq![tens, ones],
{
    lemma_digit_of_value(tens);
    lemma_digit_of_value(ones);
    lemma_tens_and_ones_of(digit_value(tens), digit_value(ones));
}

/// The six numbers of the text of valid fields, each with its two or four
/// characters.
proof fn lemma_text_parts(t: TimestampView)
    requires
        t.valid(),
    ensures
        timestamp_text(t).len() == 19,
        timestamp_text(t).subrange(0, 2) =~= two_digits(t.year / 100),
        timestamp_text(t).subrange(2, 4) =~= two_digits(t.year % 100),
        timestamp_text(t)[4] == '-',
        timestamp_text(t).subrange(5, 7) =~= two_digits(t.month),
        timestamp_text(t)[7] == '-',
        timestamp_text(t).subrange(8, 10) =~= two_digits(t.day),
        timestamp_text(t)[10] == ' ',
        timestamp_text(t).subrange(11, 13) =~= two_digits(t.hour),
        timestamp_text(t)[13] == ':',
        timestamp_text(t).subrange(14, 16) =~= two_digits(t.minute),
        timestamp_text(t)[16] == ':',
        timestamp_text(t).subrange(17, 19) =~= two_digits(t.written_second()),
{
}

/// What two characters of a text write, where they are the two digits of a
/// number below 100.
proof fn lemma_two_at(s: Seq<char>, i: int, n: int)
    requires
        0 <= i,
        i + 2 <= s.len(),
        0 <= n <= 99,
        s.subrange(i, i + 2) =~= two_digits(n),
    ensures
        is_digit(s[i]),
        is_digit(s[i + 1]),
        two_at(s, i) == n,
{
    lemma_two_digits(n);
    let w = s.subrange(i, i + 2);
    assert(w[0] == s[i]);
    assert(w[1] == s[i + 1]);
}

/// The text written for a valid timestamp has the stored layout: 19
/// characters, fixed width, whatever the fields.
pub proof fn lemma_encoded_layout(t: TimestampView)
    requires
        t.valid(),
    ensures
        is_timestamp_text(timestamp_text(t)),
{
    lemma_text_fields(t);
}

/// The text of valid fields has the stored layout and writes those fields
/// down.
proof fn lemma_text_fields(t: TimestampView)
    requires
        t.valid(),
    ensures
        is_timestamp_text(timestamp_text(t)),
        four_at(timestamp_text(t), 0) == t.year,
        two_at(timestamp_text(t), 5) == t.month,
        two_at(timestamp_text(t), 8) == t.day,
        two_at(timestamp_text(t), 11) == t.hour,
        two_at(timestamp_text(t), 14) == t.minute,
        two_at(timestamp_text(t), 17) == t.written_second(),
{
    let s = timestamp_text(t);
    lemma_text_parts(t);
    lemma_hundreds_and_rest(t.year);
    lemma_two_at(s, 0, t.year / 100);
    lemma_two_at(s, 2, t.year % 100);
    lemma_two_at(s, 5, t.month);
    lemma_two_at(s, 8, t.day);
    lemma_two_at(s, 11, t.hour);
    lemma_two_at(s, 14, t.minute);
    lemma_two_at(s, 17, t.written_second());
    assert forall|i: int| 0 <= i < 19 implies match separator_at(i) {
        Some(c) => #[trigger] s[i] == c,
        None => is_digit(s[i]),
    } by {
        if i == 0 || i == 1 || i == 2 || i == 3 {
        } else if i == 5 || i == 6 || i == 8 || i == 9 {
        } else if i == 11 || i == 12 || i == 14 || i == 15 {
        } else if i == 17 || i == 18 {
        } else {
        }
    }
}

/// Reading what was written gives the timestamp back, cut down to the whole
/// second: for every valid timestamp `t`, decoding the text of `t` succeeds
/// with `t.truncated()`. The round trip is lossy below the second and exact
/// above it.
pub proof fn lemma_decode_encode(t: TimestampView)
    requires
        t.valid(),
    ensures
        parse_timestamp(timestamp_text(t)) == Ok::<TimestampView, ParseError>(t.truncated()),
        t.truncated().valid(),
{
    lemma_text_fields(t);
    assert(text_fields(timestamp_text(t)) == t.truncated());
}

/// A timestamp of whole seconds survives the round trip unchanged: for every
/// valid `t` with nothing below the second, decoding the text of `t` gives `t`.
pub proof fn lemma_decode_encode_whole_seconds(t: TimestampView)
    requires
        t.valid(),
        t.nanosecond == 0,
    ensures
        parse_timestamp(timestamp_text(t)) == Ok::<TimestampView, ParseError>(t),
{
    lemma_decode_encode(t);
}

/// Decoding is the exact inverse of encoding: a text that decodes to `t` is
/// the very text written for `t`, so no second spelling of a timestamp is
/// accepted.
pub proof fn lemma_encode_decode(s: Seq<char>, t: TimestampView)
    requires
        parse_timestamp(s) == Ok::<TimestampView, ParseError>(t),
    ensures
        timestamp_text(t) == s,
{
    assert(separator_at(0) is None && separator_at(1) is None && separator_at(2) is None
        && separator_at(3) is None);
    assert(separator_at(5) is None && separator_at(6) is None);
    assert(separator_at(8) is None && separator_at(9) is None);
    assert(separator_at(11) is None && separator_at(12) is None);
    assert(separator_at(14) is None && separator_at(15) is None);
    assert(separator_at(17) is None && separator_at(18) is None);
    assert(is_digit(s[0]) && is_digit(s[1]) && is_digit(s[2]) && is_digit(s[3]));
    assert(is_digit(s[5]) && is_digit(s[6]) && is_digit(s[8]) && is_digit(s[9]));
    assert(is_digit(s[11]) && is_digit(s[12]) && is_digit(s[14]) && is_digit(s[15]));
    assert(is_digit(s[17]) && is_digit(s[18]));
    assert(s[4] == '-' && s[7] == '-' && s[10] == ' ' && s[13] == ':' && s[16] == ':');
    lemma_two_digits_written(s[0], s[1]);
    lemma_two_digits_written(s[2], s[3]);
    lemma_hundreds_and_rest_of(two_at(s, 0), two_at(s, 2));
    lemma_two_digits_written(s[5], s[6]);
    lemma_two_digits_written(s[8], s[9]);
    lemma_two_digits_written(s[11], s[12]);
    lemma_two_digits_written(s[14], s[15]);
    lemma_two_digits_written(s[17], s[18]);
    assert(t.written_second() == two_at(s, 17));
    let year = seq![s[0], s[1]] + seq![s[2], s[3]];
    let month = seq![s[5], s[6]];
    let day = seq![s[8], s[9]];
    let hour = seq![s[11], s[12]];
    let minute = seq![s[14], s[15]];
    let second = seq![s[17], s[18]];
    assert(four_digits(t.year) == year);
    assert(two_digits(t.month) == month);
    assert(two_digits(t.day) == day);
    assert(two_digits(t.hour) == hour);
    assert(two_digits(t.minute) == minute);
    assert(two_digits(t.written_second()) == second);
    assert(year + seq!['-'] + month + seq!['-'] + day + seq![' '] + hour + seq![':'] + minute
        + seq![':'] + second =~= s);
}

} // verus!
