//! Wall-clock timestamps and their rendering as `DD.MM.YYYY` and `HH:MM:SS`.

use vstd::prelude::*;
use vstd::string::*;
use chrono::Datelike;
use chrono::Timelike;
use crate::text::free_of_escapes;

verus! {

/// The decimal digit for `d`, which is below ten.
pub open spec fn digit(d: nat) -> char {
    if d == 0 {
        '0'
    } else if d == 1 {
        '1'
    } else if d == 2 {
        '2'
    } else if d == 3 {
        '3'
    } else if d == 4 {
        '4'
    } else if d == 5 {
        '5'
    } else if d == 6 {
        '6'
    } else if d == 7 {
        '7'
    } else if d == 8 {
        '8'
    } else {
        '9'
    }
}

/// `n` written in decimal, most significant digit first, without leading
/// zeros.
pub open spec fn decimal(n: nat) -> Seq<char>
    decreases n,
{
    if n < 10 {
        seq![digit(n)]
    } else {
        decimal(n / 10).push(digit(n % 10))
    }
}

/// `n` zeros.
pub open spec fn zeros(n: nat) -> Seq<char> {
    Seq::new(n, |i: int| '0')
}

/// `n` written in decimal and filled up with zeros on the left to at least
/// `width` digits.
pub open spec fn zero_padded(n: nat, width: nat) -> Seq<char> {
    if decimal(n).len() >= width {
        decimal(n)
    } else {
        zeros((width - decimal(n).len()) as nat) + decimal(n)
    }
}

/// A year as it stands in a date: four digits from 0 to 9999, and a sign
/// before at least four digits outside that range.
pub open spec fn year_text(year: int) -> Seq<char> {
    if 0 <= year <= 9999 {
        zero_padded(year as nat, 4)
    } else if year < 0 {
        seq!['-'] + zero_padded((-year) as nat, 4)
    } else {
        seq!['+'] + zero_padded(year as nat, 4)
    }
}

/// A number below one hundred takes exactly two characters when padded to
/// two digits.
pub proof fn lemma_two_digits(n: nat)
    requires
        n < 100,
    ensures
        zero_padded(n, 2).len() == 2,
{
    reveal_with_fuel(decimal, 2);
}

/// A number below ten thousand takes exactly four characters when padded to
/// four digits.
pub proof fn lemma_four_digits(n: nat)
    requires
        n < 10000,
    ensures
        zero_padded(n, 4).len() == 4,
{
    reveal_with_fuel(decimal, 4);
}

/// A point in time as a wall clock shows it.
#[derive(Clone, Copy, Debug, PartialEq, Eq, Structural)]
pub struct Timestamp {
    pub year: i32,
    pub month: u32,
    pub day: u32,
    pub hour: u32,
    pub minute: u32,
    pub second: u32,
}

impl Timestamp {
    /// Whether the fields are those of a calendar date and a time of day.
    pub open spec fn is_calendar(self) -> bool {
        &&& 1 <= self.month <= 12
        &&& 1 <= self.day <= 31
        &&& self.hour <= 23
        &&& self.minute <= 59
        &&& self.second <= 59
    }

    /// The date as `DD.MM.YYYY`.
    pub open spec fn date_text(self) -> Seq<char> {
        zero_padded(self.day as nat, 2) + seq!['.'] + zero_padded(self.month as nat, 2) + seq!['.']
            + year_text(self.year as int)
    }

    /// The time of day as `HH:MM:SS`.
    pub open spec fn time_text(self) -> Seq<char> {
        zero_padded(self.hour as nat, 2) + seq![':'] + zero_padded(self.minute as nat, 2) + seq![
            ':',
        ] + zero_padded(self.second as nat, 2)
    }

    /// What a clock shows that runs `offset_seconds` ahead of universal
    /// time, `unix_seconds` seconds after the beginning of 1970 in universal
    /// time: the calendar fields of the moment that many seconds later.
    /// There is none where the sum does not fit in 64 bits.
    pub open spec fn spec_from_unix(unix_seconds: i64, offset_seconds: i32) -> Option<Timestamp> {
        if i64::MIN <= unix_seconds + offset_seconds <= i64::MAX {
            civil_time((unix_seconds + offset_seconds) as i64)
        } else {
            None
        }
    }

    /// What a clock shows that runs `offset_seconds` ahead of universal
    /// time, `unix_seconds` seconds after the beginning of 1970 in universal
    /// time. Whatever comes out is a calendar date and a time of day.
    pub fn from_unix(unix_seconds: i64, offset_seconds: i32) -> (at: Option<Timestamp>)
        ensures
            at == Timestamp::spec_from_unix(unix_seconds, offset_seconds),
            at matches Some(fields) ==> fields.is_calendar(),
    {
        match unix_seconds.checked_add(offset_seconds as i64) {
            Some(seconds) => civil_fields(seconds),
            None => None,
        }
    }

    /// A timestamp made of the given fields.
    pub fn new(year: i32, month: u32, day: u32, hour: u32, minute: u32, second: u32) -> (ts: Self)
        ensures
            ts == (Timestamp { year, month, day, hour, minute, second }),
    {
        Timestamp { year, month, day, hour, minute, second }
    }

    /// The date as `DD.MM.YYYY`.
    pub fn date(&self) -> (out: String)
        ensures
            out@ == self.date_text(),
    {
        let mut out = String::new();
        append_zero_padded(&mut out, self.day, 2);
        out.append(".");
        append_zero_padded(&mut out, self.month, 2);
        out.append(".");
        append_year(&mut out, self.year);
        proof {
            reveal_strlit(".");
        }
        out
    }

    /// The time of day as `HH:MM:SS`.
    pub fn time(&self) -> (out: String)
        ensures
            out@ == self.time_text(),
    {
        let mut out = String::new();
        append_zero_padded(&mut out, self.hour, 2);
        out.append(":");
        append_zero_padded(&mut out, self.minute, 2);
        out.append(":");
        append_zero_padded(&mut out, self.second, 2);
        proof {
            reveal_strlit(":");
        }
        out
    }
}

/// For a calendar timestamp with a year of at most four digits the date takes
/// ten characters and the time of day eight.
pub proof fn lemma_timestamp_widths(ts: Timestamp)
    requires
        ts.is_calendar(),
        0 <= ts.year <= 9999,
    ensures
        ts.date_text().len() == 10,
        ts.time_text().len() == 8,
{
    lemma_two_digits(ts.day as nat);
    lemma_two_digits(ts.month as nat);
    lemma_four_digits(ts.year as nat);
    lemma_two_digits(ts.hour as nat);
    lemma_two_digits(ts.minute as nat);
    lemma_two_digits(ts.second as nat);
}

/// A number written in decimal holds no escape character.
pub proof fn lemma_decimal_free_of_escapes(n: nat)
    ensures
        free_of_escapes(decimal(n)),
    decreases n,
{
    if n >= 10 {
        lemma_decimal_free_of_escapes(n / 10);
    }
}

/// Date and time of day hold no escape character.
pub proof fn lemma_timestamp_free_of_escapes(ts: Timestamp)
    ensures
        free_of_escapes(ts.date_text()),
        free_of_escapes(ts.time_text()),
{
    lemma_decimal_free_of_escapes(ts.day as nat);
    lemma_decimal_free_of_escapes(ts.month as nat);
    lemma_decimal_free_of_escapes(ts.hour as nat);
    lemma_decimal_free_of_escapes(ts.minute as nat);
    lemma_decimal_free_of_escapes(ts.second as nat);
    if ts.year < 0 {
        lemma_decimal_free_of_escapes((-ts.year) as nat);
    } else {
        lemma_decimal_free_of_escapes(ts.year as nat);
    }
}

/// The one-character string for the digit `d`.
fn digit_str(d: u32) -> (text: &'static str)
    requires
        d < 10,
    ensures
        text@ == seq![digit(d as nat)],
{
    proof {
        reveal_strlit("0");
        reveal_strlit("1");
        reveal_strlit("2");
        reveal_strlit("3");
        reveal_strlit("4");
        reveal_strlit("5");
        reveal_strlit("6");
        reveal_strlit("7");
        reveal_strlit("8");
        reveal_strlit("9");
    }
    let text = if d == 0 {
        "0"
    } else if d == 1 {
        "1"
    } else if d == 2 {
        "2"
    } else if d == 3 {
        "3"
    } else if d == 4 {
        "4"
    } else if d == 5 {
        "5"
    } else if d == 6 {
        "6"
    } else if d == 7 {
        "7"
    } else if d == 8 {
        "8"
    } else {
        "9"
    };
    text
}

/// The number of decimal digits of `n`.
fn decimal_len(n: u32) -> (len: usize)
    ensures
        len == decimal(n as nat).len(),
        1 <= len <= 10,
    decreases n,
{
    if n < 10 {
        1
    } else {
        let rest = decimal_len(n / 10);
        proof {
            lemma_decimal_len_bound(n as nat);
        }
        rest + 1
    }
}

/// A number below `2^32` has at most ten decimal digits.
proof fn lemma_decimal_len_bound(n: nat)
    requires
        n <= u32::MAX,
    ensures
        1 <= decimal(n).len() <= 10,
{
    reveal_with_fuel(decimal, 11);
}

/// Appends `n` in decimal, without leading zeros.
fn append_decimal(out: &mut String, n: u32)
    ensures
        final(out)@ == old(out)@ + decimal(n as nat),
    decreases n,
{
    if n >= 10 {
        append_decimal(out, n / 10);
    }
    out.append(digit_str(n % 10));
}

/// Appends `n` in decimal, filled up with zeros to at least `width` digits.
fn append_zero_padded(out: &mut String, n: u32, width: usize)
    ensures
        final(out)@ == old(out)@ + zero_padded(n as nat, width as nat),
{
    let len = decimal_len(n);
    let mut filled: usize = len;
    while filled < width
        invariant
            len <= filled,
            filled <= width || filled == len,
            out@ == old(out)@ + zeros((filled - len) as nat),
        decreases width - filled,
    {
        out.append("0");
        proof {
            reveal_strlit("0");
        }
        filled = filled + 1;
    }
    append_decimal(out, n);
}

/// Appends a year: four digits from 0 to 9999, a sign and at least four
/// digits outside that range.
fn append_year(out: &mut String, year: i32)
    ensures
        final(out)@ == old(out)@ + year_text(year as int),
{
    if 0 <= year && year <= 9999 {
        append_zero_padded(out, year as u32, 4);
    } else if year < 0 {
        out.append("-");
        let magnitude: i64 = -(year as i64);
        append_zero_padded(out, magnitude as u32, 4);
        proof {
            reveal_strlit("-");
        }
    } else {
        out.append("+");
        append_zero_padded(out, year as u32, 4);
        proof {
            reveal_strlit("+");
        }
    }
}

/// The calendar fields of the moment that lies `seconds` seconds after the
/// beginning of 1970 in universal time, as chrono's `DateTime::from_timestamp`
/// makes them out; nothing where chrono cannot represent the moment.
pub uninterp spec fn civil_time(seconds: i64) -> Option<Timestamp>;

/// Asks chrono for the moment that lies `seconds` seconds after the
/// beginning of 1970, through `DateTime::from_timestamp`, and reads the
/// calendar fields of what it answers with the getters of `Datelike` and
/// `Timelike`. The call is total: it answers with nothing for a moment
/// outside chrono's range. The contract names the result and repeats the
/// ranges that chrono documents for the getters; nothing is claimed of the
/// year.
#[verifier::external_body]
fn civil_fields(seconds: i64) -> (at: Option<Timestamp>)
    ensures
        at == civil_time(seconds),
        at matches Some(fields) ==> fields.is_calendar(),
{
    match chrono::DateTime::from_timestamp(seconds, 0) {
        Some(utc) => Some(
            Timestamp {
                year: utc.year(),
                month: utc.month(),
                day: utc.day(),
                hour: utc.hour(),
                minute: utc.minute(),
                second: utc.second(),
            },
        ),
        None => None,
    }
}

} // verus!
