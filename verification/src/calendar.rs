//! The UTC calendar date of a Unix timestamp, rendered as `YYYY-MM-DD`.
use crate::content_delivery::ContentDeliveryError;
use crate::text::{decimal, zero_pad, zero_padded_decimal};
use vstd::prelude::*;

verus! {

/// The earliest timestamp that `time::OffsetDateTime` can represent: the
/// first second of the year -9999.
pub const MIN_UNIX_TIMESTAMP: i64 = -377705116800;

/// The latest timestamp that `time::OffsetDateTime` can represent: the last
/// second of the year 9999.
pub const MAX_UNIX_TIMESTAMP: i64 = 253402300799;

/// A leap year of the proleptic Gregorian calendar.
pub open spec fn is_leap_year(year: int) -> bool {
    year % 4 == 0 && (year % 100 != 0 || year % 400 == 0)
}

/// The number of days of `month` (1 to 12) in `year`.
pub open spec fn days_in_month(year: int, month: int) -> int {
    if month == 2 {
        if is_leap_year(year) {
            29
        } else {
            28
        }
    } else if month == 4 || month == 6 || month == 9 || month == 11 {
        30
    } else {
        31
    }
}

/// The number of days of `year` before the first of `month`.
pub open spec fn days_before_month(year: int, month: int) -> int {
    let common: int = if month <= 1 {
        0
    } else if month == 2 {
        31
    } else if month == 3 {
        59
    } else if month == 4 {
        90
    } else if month == 5 {
        120
    } else if month == 6 {
        151
    } else if month == 7 {
        181
    } else if month == 8 {
        212
    } else if month == 9 {
        243
    } else if month == 10 {
        273
    } else if month == 11 {
        304
    } else {
        334
    };
    if month > 2 && is_leap_year(year) {
        common + 1
    } else {
        common
    }
}

/// The number of leap years from year 1 through `year` (counted downwards, with
/// a negative sign, for years before 1).
pub open spec fn leap_years_through(year: int) -> int {
    year / 4 - year / 100 + year / 400
}

/// The number of days from 1970-01-01 to the first of January of `year`
/// (negative before 1970).
pub open spec fn days_before_year(year: int) -> int {
    365 * (year - 1970) + leap_years_through(year - 1) - leap_years_through(1969)
}

/// The day number of a date: days since 1970-01-01.
pub open spec fn days_from_civil(year: int, month: int, day: int) -> int {
    days_before_year(year) + days_before_month(year, month) + day - 1
}

/// A date of the proleptic Gregorian calendar.
pub open spec fn is_valid_date(year: int, month: int, day: int) -> bool {
    1 <= month <= 12 && 1 <= day <= days_in_month(year, month)
}

/// The day that a Unix timestamp falls on, as a day number (rounded down).
pub open spec fn unix_day(timestamp: int) -> int {
    timestamp / 86400
}

/// The date whose day number is `day`.
pub open spec fn civil_date(day: int) -> (int, int, int) {
    choose|date: (int, int, int)|
        is_valid_date(date.0, date.1, date.2) && days_from_civil(date.0, date.1, date.2) == day
}

/// Calls `time::OffsetDateTime::from_unix_timestamp` and reads the year,
/// month (as a number) and day of the result. Trusted: it succeeds exactly on
/// the range that `OffsetDateTime` covers without the `large-dates` feature
/// (`MIN_UNIX_TIMESTAMP..=MAX_UNIX_TIMESTAMP`); then the result is the UTC
/// date of the timestamp in the proleptic Gregorian calendar, that is, the
/// valid date whose day number is the timestamp divided by 86400 and rounded
/// down, with the year in `-9999..=9999`.
#[verifier::external_body]
pub(crate) fn unix_calendar_date(timestamp: i64) -> (res: Option<(i32, u8, u8)>)
    ensures
        res is Some <==> MIN_UNIX_TIMESTAMP <= timestamp <= MAX_UNIX_TIMESTAMP,
        res matches Some(date) ==> {
            &&& is_valid_date(date.0 as int, date.1 as int, date.2 as int)
            &&& days_from_civil(date.0 as int, date.1 as int, date.2 as int) == unix_day(
                timestamp as int,
            )
            &&& -9999 <= date.0 <= 9999
        },
{
    match time::OffsetDateTime::from_unix_timestamp(timestamp) {
        Ok(moment) => Some((moment.year(), u8::from(moment.month()), moment.day())),
        Err(_) => None,
    }
}

/// `a` comes before `b` in calendar order.
pub open spec fn date_before(a: (int, int, int), b: (int, int, int)) -> bool {
    a.0 < b.0 || (a.0 == b.0 && (a.1 < b.1 || (a.1 == b.1 && a.2 < b.2)))
}

/// Rounded-down division by `k` goes up by one exactly at the multiples of `k`.
proof fn lemma_floor_step(y: int, k: int)
    requires
        k > 0,
    ensures
        y / k - (y - 1) / k == (if y % k == 0 { 1int } else { 0 }),
{
    let q = y / k;
    let r = y % k;
    vstd::arithmetic::div_mod::lemma_fundamental_div_mod(y, k);
    if r == 0 {
        assert(y - 1 == (q - 1) * k + (k - 1)) by (nonlinear_arith)
            requires
                y == k * q + r,
                r == 0,
        ;
        vstd::arithmetic::div_mod::lemma_fundamental_div_mod_converse(y - 1, k, q - 1, k - 1);
    } else {
        assert(y - 1 == q * k + (r - 1)) by (nonlinear_arith)
            requires
                y == k * q + r,
        ;
        vstd::arithmetic::div_mod::lemma_fundamental_div_mod_converse(y - 1, k, q, r - 1);
    }
}

/// Multiples of 400 are multiples of 100, and those are multiples of 4.
proof fn lemma_century_divisors(y: int)
    ensures
        y % 400 == 0 ==> y % 100 == 0,
        y % 100 == 0 ==> y % 4 == 0,
{
    vstd::arithmetic::div_mod::lemma_fundamental_div_mod(y, 400);
    vstd::arithmetic::div_mod::lemma_fundamental_div_mod(y, 100);
    if y % 400 == 0 {
        let q = y / 400;
        assert(y == (4 * q) * 100 + 0) by (nonlinear_arith)
            requires
                y == 400 * q + 0,
        ;
        vstd::arithmetic::div_mod::lemma_fundamental_div_mod_converse(y, 100, 4 * q, 0);
    }
    if y % 100 == 0 {
        let q = y / 100;
        assert(y == (25 * q) * 4 + 0) by (nonlinear_arith)
            requires
                y == 100 * q + 0,
        ;
        vstd::arithmetic::div_mod::lemma_fundamental_div_mod_converse(y, 4, 25 * q, 0);
    }
}

/// A year is as long as its months together, and the next year starts after it.
proof fn lemma_year_length(year: int)
    ensures
        days_before_year(year + 1) == days_before_year(year) + days_before_month(year, 12)
            + days_in_month(year, 12),
{
    let y = year;
    lemma_floor_step(y, 4);
    lemma_floor_step(y, 100);
    lemma_floor_step(y, 400);
    lemma_century_divisors(y);
}

/// Years start in order.
proof fn lemma_years_ordered(a: int, b: int)
    requires
        a <= b,
    ensures
        days_before_year(a) <= days_before_year(b),
    decreases b - a,
{
    if a < b {
        lemma_year_length(b - 1);
        lemma_years_ordered(a, b - 1);
    }
}

/// Each month ends before the next one starts.
proof fn lemma_months_ordered(year: int, m1: int, m2: int)
    requires
        1 <= m1 < m2 <= 12,
    ensures
        days_before_month(year, m1) + days_in_month(year, m1) <= days_before_month(year, m2),
{
}

/// A date that comes earlier in calendar order has a smaller day number.
pub proof fn lemma_day_number_increases(a: (int, int, int), b: (int, int, int))
    requires
        is_valid_date(a.0, a.1, a.2),
        is_valid_date(b.0, b.1, b.2),
        date_before(a, b),
    ensures
        days_from_civil(a.0, a.1, a.2) < days_from_civil(b.0, b.1, b.2),
{
    if a.0 < b.0 {
        lemma_year_length(a.0);
        if a.1 < 12 {
            lemma_months_ordered(a.0, a.1, 12);
        }
        lemma_years_ordered(a.0 + 1, b.0);
    } else if a.1 < b.1 {
        lemma_months_ordered(a.0, a.1, b.1);
    }
}

/// The date after `date`.
pub open spec fn next_date(date: (int, int, int)) -> (int, int, int) {
    if date.2 < days_in_month(date.0, date.1) {
        (date.0, date.1, date.2 + 1)
    } else if date.1 < 12 {
        (date.0, date.1 + 1, 1)
    } else {
        (date.0 + 1, 1, 1)
    }
}

/// The date after a valid date is valid and has the next day number.
proof fn lemma_next_date(date: (int, int, int))
    requires
        is_valid_date(date.0, date.1, date.2),
    ensures
        is_valid_date(next_date(date).0, next_date(date).1, next_date(date).2),
        days_from_civil(next_date(date).0, next_date(date).1, next_date(date).2) == days_from_civil(
            date.0,
            date.1,
            date.2,
        ) + 1,
        next_date(date).0 >= date.0,
{
    lemma_year_length(date.0);
}

/// Every day number from 0 on belongs to a date of the year 1970 or later.
pub proof fn lemma_date_exists(day: nat) -> (date: (int, int, int))
    ensures
        is_valid_date(date.0, date.1, date.2),
        days_from_civil(date.0, date.1, date.2) == day,
        date.0 >= 1970,
    decreases day,
{
    if day == 0 {
        (1970, 1, 1)
    } else {
        let before = lemma_date_exists((day - 1) as nat);
        lemma_next_date(before);
        next_date(before)
    }
}

/// The date before `date`.
pub open spec fn previous_date(date: (int, int, int)) -> (int, int, int) {
    if date.2 > 1 {
        (date.0, date.1, date.2 - 1)
    } else if date.1 > 1 {
        (date.0, date.1 - 1, days_in_month(date.0, date.1 - 1))
    } else {
        (date.0 - 1, 12, 31)
    }
}

/// The date before a valid date is valid and has the previous day number.
proof fn lemma_previous_date(date: (int, int, int))
    requires
        is_valid_date(date.0, date.1, date.2),
    ensures
        is_valid_date(previous_date(date).0, previous_date(date).1, previous_date(date).2),
        days_from_civil(previous_date(date).0, previous_date(date).1, previous_date(date).2)
            == days_from_civil(date.0, date.1, date.2) - 1,
{
    lemma_year_length(date.0 - 1);
}

/// Every day number, before 1970 too, belongs to a date.
pub proof fn lemma_some_date(day: int) -> (date: (int, int, int))
    ensures
        is_valid_date(date.0, date.1, date.2),
        days_from_civil(date.0, date.1, date.2) == day,
    decreases (if day < 0 { -day } else { 0 }),
{
    if day >= 0 {
        lemma_date_exists(day as nat)
    } else {
        let after = lemma_some_date(day + 1);
        lemma_previous_date(after);
        previous_date(after)
    }
}

/// A day number belongs to one date only.
pub proof fn lemma_civil_date_is(day: int, year: int, month: int, d: int)
    requires
        is_valid_date(year, month, d),
        days_from_civil(year, month, d) == day,
    ensures
        civil_date(day) == (year, month, d),
{
    let w = (year, month, d);
    assert(is_valid_date(w.0, w.1, w.2) && days_from_civil(w.0, w.1, w.2) == day);
    let c = civil_date(day);
    assert(is_valid_date(c.0, c.1, c.2) && days_from_civil(c.0, c.1, c.2) == day);
    if date_before(c, (year, month, d)) {
        lemma_day_number_increases(c, (year, month, d));
    }
    if date_before((year, month, d), c) {
        lemma_day_number_increases((year, month, d), c);
    }
}

/// `timestamp` reinterpreted as a signed 64-bit integer, as `timestamp as i64` does.
pub open spec fn signed_timestamp(timestamp: u64) -> i64 {
    if timestamp <= i64::MAX {
        timestamp as i64
    } else {
        (timestamp - 0x1_0000_0000_0000_0000) as i64
    }
}

/// Whether the calendar date of `timestamp` (read as signed) can be computed.
pub open spec fn timestamp_in_range(timestamp: u64) -> bool {
    MIN_UNIX_TIMESTAMP <= signed_timestamp(timestamp) <= MAX_UNIX_TIMESTAMP
}

/// A year as `{:04}` prints it: at least four characters, the sign counted.
pub open spec fn format_year(year: int) -> Seq<char> {
    if year < 0 {
        seq!['-'] + zero_pad(decimal((-year) as nat), 3)
    } else {
        zero_pad(decimal(year as nat), 4)
    }
}

/// A date as `{:04}-{:02}-{:02}` prints it.
pub open spec fn format_date(date: (int, int, int)) -> Seq<char> {
    format_year(date.0) + seq!['-'] + zero_pad(decimal(date.1 as nat), 2) + seq!['-'] + zero_pad(
        decimal(date.2 as nat),
        2,
    )
}

/// The `YYYY-MM-DD` UTC date of `timestamp`.
pub open spec fn utc_date(timestamp: u64) -> Seq<char> {
    format_date(civil_date(unix_day(signed_timestamp(timestamp) as int)))
}

/// `timestamp as i64`.
fn to_signed(timestamp: u64) -> (t: i64)
    ensures
        t == signed_timestamp(timestamp),
{
    if timestamp <= 9223372036854775807 {
        timestamp as i64
    } else {
        let above: i64 = (timestamp - 9223372036854775808) as i64;
        above - 9223372036854775807 - 1
    }
}

/// Renders `year` as `{:04}` does.
fn render_year(year: i32) -> (s: String)
    requires
        -9999 <= year <= 9999,
    ensures
        s@ == format_year(year as int),
{
    if year < 0 {
        let magnitude: u64 = (0 - year) as u64;
        let mut s = String::new();
        crate::text::push_char(&mut s, '-');
        let digits = zero_padded_decimal(magnitude, 3);
        s.append(digits.as_str());
        assert(s@ =~= seq!['-'] + zero_pad(decimal((-year) as nat), 3));
        s
    } else {
        zero_padded_decimal(year as u64, 4)
    }
}

/// The UTC calendar date of a Unix timestamp as `YYYY-MM-DD`; the timestamp is
/// read as a signed number. Fails with `InvalidTimestamp` exactly when the date
/// is out of the representable range.
pub fn utc_date_from_timestamp(timestamp: u64) -> (res: Result<String, ContentDeliveryError>)
    ensures
        match res {
            Ok(date) => timestamp_in_range(timestamp) && date@ == utc_date(timestamp),
            Err(err) => !timestamp_in_range(timestamp) && err == ContentDeliveryError::InvalidTimestamp(
                timestamp,
            ),
        },
{
    let signed = to_signed(timestamp);
    match unix_calendar_date(signed) {
        Some((year, month, day)) => {
            proof {
                lemma_civil_date_is(
                    unix_day(signed as int),
                    year as int,
                    month as int,
                    day as int,
                );
            }
            let mut s = render_year(year);
            crate::text::push_char(&mut s, '-');
            let m = zero_padded_decimal(month as u64, 2);
            s.append(m.as_str());
            crate::text::push_char(&mut s, '-');
            let d = zero_padded_decimal(day as u64, 2);
            s.append(d.as_str());
            Ok(s)
        },
        None => Err(ContentDeliveryError::InvalidTimestamp(timestamp)),
    }
}

} // verus!
