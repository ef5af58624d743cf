//! The terminal's packed timestamps and their calendar form.

use vstd::prelude::*;
use crate::text::digit_char;

verus! {

/// Whether a year of the proleptic Gregorian calendar has a 29 February.
pub open spec fn is_leap_year(year: int) -> bool {
    year % 4 == 0 && (year % 100 != 0 || year % 400 == 0)
}

/// The number of days of a month; 0 where `month` is not in `1..=12`.
pub open spec fn days_in_month(year: int, month: int) -> int {
    if month == 4 || month == 6 || month == 9 || month == 11 {
        30
    } else if month == 2 {
        if is_leap_year(year) {
            29
        } else {
            28
        }
    } else if 1 <= month <= 12 {
        31
    } else {
        0
    }
}

/// Whether the calendar has the given day.
pub open spec fn date_exists(year: int, month: int, day: int) -> bool {
    1 <= month <= 12 && 1 <= day <= days_in_month(year, month)
}

/// A number below 100 as two digits.
pub open spec fn two_digits(v: int) -> Seq<char> {
    seq![digit_char(v / 10), digit_char(v % 10)]
}

/// A number below 10000 as four digits.
pub open spec fn four_digits(v: int) -> Seq<char> {
    seq![
        digit_char(v / 1000),
        digit_char(v / 100 % 10),
        digit_char(v / 10 % 10),
        digit_char(v % 10),
    ]
}

/// A calendar date and time of day, held as plain numbers.
#[derive(Debug, Clone, Copy, PartialEq, Eq, Structural)]
pub struct ZkTime {
    pub year: u32,
    pub month: u32,
    pub day: u32,
    pub hour: u32,
    pub minute: u32,
    pub second: u32,
}

impl ZkTime {
    /// Whether the fields name an instant of the calendar, in a year that
    /// is written with four digits.
    pub open spec fn valid(self) -> bool {
        &&& self.year <= 9999
        &&& date_exists(self.year as int, self.month as int, self.day as int)
        &&& self.hour < 24
        &&& self.minute < 60
        &&& self.second < 60
    }

    /// The text `YYYY-MM-DDTHH:MM:SS.000Z` of the instant.
    pub open spec fn iso_text(self) -> Seq<char> {
        four_digits(self.year as int) + seq!['-'] + two_digits(self.month as int) + seq!['-']
            + two_digits(self.day as int) + seq!['T'] + two_digits(self.hour as int) + seq![':']
            + two_digits(self.minute as int) + seq![':'] + two_digits(self.second as int)
            + seq!['.', '0', '0', '0', 'Z']
    }
}

/// The fields that a packed timestamp holds, by successive division. The
/// day runs to 31 in every month.
pub open spec fn unpacked(t: int) -> ZkTime {
    ZkTime {
        year: (t / 32140800 + 2000) as u32,
        month: (t / 2678400 % 12 + 1) as u32,
        day: (t / 86400 % 31 + 1) as u32,
        hour: (t / 3600 % 24) as u32,
        minute: (t / 60 % 60) as u32,
        second: (t % 60) as u32,
    }
}

/// The instant that a packed timestamp stands for: its fields, with the
/// day brought down to the last day of the month where the month is shorter.
pub open spec fn instant_of(t: int) -> ZkTime {
    let f = unpacked(t);
    let last = days_in_month(f.year as int, f.month as int);
    ZkTime {
        day: if f.day as int > last {
            last as u32
        } else {
            f.day
        },
        ..f
    }
}

/// Splits a packed timestamp into its fields.
pub fn unpack_zk_time(time: u32) -> (fields: ZkTime)
    ensures
        fields == unpacked(time as int),
        2000 <= fields.year <= 2133,
        1 <= fields.month <= 12,
        1 <= fields.day <= 31,
        fields.hour < 24,
        fields.minute < 60,
        fields.second < 60,
{
    let mut t: u32 = time;
    let second: u32 = t % 60;
    t = t / 60;
    let minute: u32 = t % 60;
    t = t / 60;
    let hour: u32 = t % 24;
    t = t / 24;
    let day: u32 = (t % 31) + 1;
    t = t / 31;
    let month: u32 = (t % 12) + 1;
    t = t / 12;
    let year: u32 = t + 2000;
    ZkTime { year, month, day, hour, minute, second }
}

/// `chrono::NaiveDate::from_ymd_opt`, asked only whether it gives a date:
/// it does exactly when the calendar has the day.
#[verifier::external_body]
pub(crate) fn calendar_has(year: u32, month: u32, day: u32) -> (exists: bool)
    requires
        year <= 9999,
    ensures
        exists == date_exists(year as int, month as int, day as int),
{
    chrono::NaiveDate::from_ymd_opt(year as i32, month, day).is_some()
}

/// `chrono::NaiveDate::pred_opt` on the first day of a month: the day
/// number of the date before it, which is the last day of the month before.
#[verifier::external_body]
pub(crate) fn day_before_first_of(year: u32, month: u32) -> (day: u32)
    requires
        1 <= year <= 9999,
        1 <= month <= 12,
    ensures
        day as int == if month == 1 {
            31
        } else {
            days_in_month(year as int, month as int - 1)
        },
{
    let first = chrono::NaiveDate::from_ymd_opt(year as i32, month, 1).unwrap();
    chrono::Datelike::day(&first.pred_opt().unwrap())
}

/// `chrono::NaiveDateTime::format` with the pattern
/// `%Y-%m-%dT%H:%M:%S%.3fZ`, on an instant without a fraction of a second:
/// year in four digits, the other fields in two, and `.000Z` at the end.
#[verifier::external_body]
pub(crate) fn format_instant(at: ZkTime) -> (text: String)
    requires
        at.valid(),
    ensures
        text@ == at.iso_text(),
{
    let date = chrono::NaiveDate::from_ymd_opt(at.year as i32, at.month, at.day).unwrap();
    let instant = date.and_hms_opt(at.hour, at.minute, at.second).unwrap();
    instant.format("%Y-%m-%dT%H:%M:%S%.3fZ").to_string()
}

/// Every packed timestamp stands for an instant of the calendar, in the
/// year 2000 or later.
pub proof fn lemma_instant_valid(t: u32)
    ensures
        instant_of(t as int).valid(),
        instant_of(t as int).year >= 2000,
{
}

/// A packed day 31 in a month of 30 days stands for day 30.
pub proof fn lemma_day_31_clamped(t: u32)
    requires
        unpacked(t as int).day == 31,
        days_in_month(unpacked(t as int).year as int, unpacked(t as int).month as int) == 30,
    ensures
        instant_of(t as int).day == 30,
        instant_of(t as int).month == unpacked(t as int).month,
        instant_of(t as int).year == unpacked(t as int).year,
{
}

/// Decodes a packed timestamp to `YYYY-MM-DDTHH:MM:SS.000Z`. A day that the
/// month does not have becomes the month's last day.
pub fn parse_zk_time(time: u32) -> (text: String)
    ensures
        text@ == instant_of(time as int).iso_text(),
{
    let f = unpack_zk_time(time);
    if calendar_has(f.year, f.month, f.day) {
        return format_instant(f);
    }
    let next_month: u32 = if f.month < 12 {
        f.month + 1
    } else {
        1
    };
    let last_day: u32 = day_before_first_of(f.year, next_month);
    let clamped_day: u32 = if f.day < last_day {
        f.day
    } else {
        last_day
    };
    let at = ZkTime { day: clamped_day, ..f };
    format_instant(at)
}

} // verus!
