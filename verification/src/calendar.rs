//! Civil (proleptic Gregorian, UTC) dates and times of Unix timestamps, as
//! shown by the license generator.
use vstd::prelude::*;

use crate::text::{append_chars, padded_decimal, padded_decimal_chars, string_of};

verus! {

/// A leap year of the Gregorian calendar.
pub open spec fn is_leap(y: int) -> bool {
    (y % 4 == 0 && y % 100 != 0) || y % 400 == 0
}

/// The number of days of year `y`.
pub open spec fn year_len(y: int) -> int {
    if is_leap(y) {
        366
    } else {
        365
    }
}

/// The number of days of month `m` (1..=12) of year `y`.
pub open spec fn month_len(y: int, m: int) -> int {
    if m == 2 {
        if is_leap(y) {
            29
        } else {
            28
        }
    } else if m == 4 || m == 6 || m == 9 || m == 11 {
        30
    } else {
        31
    }
}

/// Counting `rem` days forward from January 1 of year `y`: the year reached
/// and the day of that year (from 0).
pub open spec fn civil_year(rem: int, y: int) -> (int, int)
    decreases rem,
{
    if rem < 0 || rem < year_len(y) {
        (y, rem)
    } else {
        civil_year(rem - year_len(y), y + 1)
    }
}

/// Day `d` (from 1) of year `y`, counted from month `m`: the month reached
/// and the day of that month.
pub open spec fn civil_month(d: int, y: int, m: int) -> (int, int)
    decreases 13 - m,
{
    if m > 12 || d <= month_len(y, m) {
        (m, d)
    } else {
        civil_month(d - month_len(y, m), y, m + 1)
    }
}

/// The year, month and day of the day `days` after 1970-01-01.
pub open spec fn civil_date_of(days: int) -> (int, int, int) {
    let (y, rem) = civil_year(days, 1970);
    let (m, d) = civil_month(rem + 1, y, 1);
    (y, m, d)
}

/// `YYYY-MM-DD` for the day `days` after 1970-01-01.
pub open spec fn date_text(days: int) -> Seq<char> {
    let (y, m, d) = civil_date_of(days);
    padded_decimal(y as nat, 4) + seq!['-'] + padded_decimal(m as nat, 2) + seq!['-'] + padded_decimal(
        d as nat,
        2,
    )
}

/// The day after `(y, m, d)`.
pub open spec fn next_day(date: (int, int, int)) -> (int, int, int) {
    let (y, m, d) = date;
    if d < month_len(y, m) {
        (y, m, d + 1)
    } else if m < 12 {
        (y, m + 1, 1)
    } else {
        (y + 1, 1, 1)
    }
}

/// The days of year `y` from the start of month `m` to its end.
pub open spec fn days_from(y: int, m: int) -> int
    decreases 13 - m,
{
    if m > 12 {
        0
    } else {
        month_len(y, m) + days_from(y, m + 1)
    }
}

proof fn lemma_days_from_year(y: int)
    ensures
        days_from(y, 1) == year_len(y),
        days_from(y, 12) == month_len(y, 12),
{
    reveal_with_fuel(days_from, 13);
}

proof fn lemma_civil_year_facts(rem: int, y: int)
    requires
        rem >= 0,
    ensures
        civil_year(rem, y).0 >= y,
        0 <= civil_year(rem, y).1 < year_len(civil_year(rem, y).0),
        civil_year(rem + 1, y) == (if civil_year(rem, y).1 + 1 < year_len(civil_year(rem, y).0) {
            (civil_year(rem, y).0, civil_year(rem, y).1 + 1)
        } else {
            (civil_year(rem, y).0 + 1, 0)
        }),
    decreases rem,
{
    if rem >= year_len(y) {
        lemma_civil_year_facts(rem - year_len(y), y + 1);
    } else if rem + 1 == year_len(y) {
        assert(civil_year(0, y + 1) == (y + 1, 0int));
    }
}

proof fn lemma_civil_month_facts(d: int, y: int, m: int)
    requires
        1 <= m <= 12,
        1 <= d <= days_from(y, m),
    ensures
        m <= civil_month(d, y, m).0 <= 12,
        1 <= civil_month(d, y, m).1 <= month_len(y, civil_month(d, y, m).0),
        (d == days_from(y, m)) == (civil_month(d, y, m).0 == 12 && civil_month(d, y, m).1 == month_len(
            y,
            12,
        )),
        d < days_from(y, m) ==> (y, civil_month(d + 1, y, m).0, civil_month(d + 1, y, m).1)
            == next_day((y, civil_month(d, y, m).0, civil_month(d, y, m).1)),
    decreases 13 - m,
{
    if m < 12 {
        assert(days_from(y, m + 1) == month_len(y, m + 1) + days_from(y, m + 2));
        assert(days_from(y, m + 2) >= 0) by {
            if m + 2 <= 12 {
                lemma_days_from_nonneg(y, m + 2);
            }
        }
    } else {
        assert(days_from(y, 13) == 0);
    }
    if d > month_len(y, m) {
        lemma_civil_month_facts(d - month_len(y, m), y, m + 1);
    } else if d == month_len(y, m) && m < 12 {
        assert(civil_month(1, y, m + 1) == (m + 1, 1int));
    }
}

proof fn lemma_days_from_nonneg(y: int, m: int)
    ensures
        days_from(y, m) >= 0,
    decreases 13 - m,
{
    if m <= 12 {
        lemma_days_from_nonneg(y, m + 1);
    }
}

/// Every day from 1970-01-01 on has a valid date: a year from 1970, a month
/// from 1 to 12, and a day within the length of that month.
pub proof fn lemma_civil_date_is_valid(days: nat)
    ensures
        ({
            let (y, m, d) = civil_date_of(days as int);
            &&& y >= 1970
            &&& 1 <= m <= 12
            &&& 1 <= d <= month_len(y, m)
        }),
{
    let (y, rem) = civil_year(days as int, 1970);
    lemma_civil_year_facts(days as int, 1970);
    lemma_days_from_year(y);
    lemma_civil_month_facts(rem + 1, y, 1);
}

/// The date of the following day is the next day of the calendar: the day
/// of the month goes up, or the month, or the year.
pub proof fn lemma_civil_date_next_day(days: nat)
    ensures
        civil_date_of(days + 1int) == next_day(civil_date_of(days as int)),
{
    let (y, rem) = civil_year(days as int, 1970);
    lemma_civil_year_facts(days as int, 1970);
    lemma_days_from_year(y);
    lemma_civil_month_facts(rem + 1, y, 1);
    if rem + 1 < year_len(y) {
        assert(civil_year(days + 1int, 1970) == (y, rem + 1));
    } else {
        assert(civil_year(days + 1int, 1970) == (y + 1, 0int));
        assert(civil_month(1, y + 1, 1) == (1int, 1int));
    }
}

/// A Unix time one day (86400 seconds) later shows the next day of the
/// calendar at the same time of day.
pub proof fn lemma_timestamp_next_day(secs: u64)
    requires
        secs + 86400 <= u64::MAX,
    ensures
        civil_date_of(((secs + 86400) / 86400) as int) == next_day(civil_date_of((secs / 86400) as int)),
        (secs + 86400) % 86400 == secs % 86400,
{
    assert((secs + 86400) / 86400 == secs / 86400 + 1);
    lemma_civil_date_next_day((secs / 86400) as nat);
}

/// `YYYY-MM-DD HH:MM:SS` for the Unix time `secs`.
pub open spec fn timestamp_text(secs: u64) -> Seq<char> {
    let t = secs % 86400;
    date_text((secs / 86400) as int) + seq![' '] + padded_decimal((t / 3600) as nat, 2) + seq![':']
        + padded_decimal(((t % 3600) / 60) as nat, 2) + seq![':'] + padded_decimal((t % 60) as nat, 2)
}

fn leap(y: u64) -> (res: bool)
    ensures
        res == is_leap(y as int),
{
    (y % 4 == 0 && y % 100 != 0) || y % 400 == 0
}

fn month_length(y: u64, m: u64) -> (res: u64)
    ensures
        res == month_len(y as int, m as int),
{
    if m == 2 {
        if leap(y) {
            29
        } else {
            28
        }
    } else if m == 4 || m == 6 || m == 9 || m == 11 {
        30
    } else {
        31
    }
}

/// The year, month and day of the day `days` after 1970-01-01.
fn civil_date(days: u64) -> (res: (u64, u64, u64))
    requires
        days <= u64::MAX / 86400,
    ensures
        civil_date_of(days as int) == (res.0 as int, res.1 as int, res.2 as int),
{
    let mut y: u64 = 1970;
    let mut rem: u64 = days;
    loop
        invariant_except_break
            y <= 1970 + (days - rem),
            rem <= days <= u64::MAX / 86400,
            civil_year(rem as int, y as int) == civil_year(days as int, 1970),
        ensures
            rem <= days,
            civil_year(days as int, 1970) == (y as int, rem as int),
            rem < year_len(y as int),
        decreases rem,
    {
        let diy: u64 = if leap(y) {
            366
        } else {
            365
        };
        if rem < diy {
            break;
        }
        rem = rem - diy;
        y = y + 1;
    }
    let mut m: u64 = 1;
    let mut d: u64 = rem + 1;
    while m <= 12
        invariant_except_break
            1 <= m <= 13,
            1 <= d <= rem + 1,
            civil_month(d as int, y as int, m as int) == civil_month(rem + 1, y as int, 1),
        ensures
            civil_month(rem + 1, y as int, 1) == (m as int, d as int),
        decreases 13 - m,
    {
        let md = month_length(y, m);
        if d <= md {
            break;
        }
        d = d - md;
        m = m + 1;
    }
    (y, m, d)
}

/// `YYYY-MM-DD` for the day `days` after 1970-01-01.
pub fn format_date(days: u64) -> (res: Vec<char>)
    requires
        days <= u64::MAX / 86400,
    ensures
        res@ == date_text(days as int),
{
    let (y, m, d) = civil_date(days);
    let mut out = padded_decimal_chars(y, 4);
    out.push('-');
    append_chars(&mut out, padded_decimal_chars(m, 2).as_slice());
    out.push('-');
    append_chars(&mut out, padded_decimal_chars(d, 2).as_slice());
    out
}

/// Formats a Unix time as `YYYY-MM-DD HH:MM:SS` (UTC), as shown in the
/// generator's log.
pub fn format_local_time(now: u64) -> (res: String)
    ensures
        res@ == timestamp_text(now),
{
    let days = now / 86400;
    let t = now % 86400;
    let mut out = format_date(days);
    out.push(' ');
    append_chars(&mut out, padded_decimal_chars(t / 3600, 2).as_slice());
    out.push(':');
    append_chars(&mut out, padded_decimal_chars((t % 3600) / 60, 2).as_slice());
    out.push(':');
    append_chars(&mut out, padded_decimal_chars(t % 60, 2).as_slice());
    string_of(out.as_slice())
}

/// How the generator shows an expiry: lifetime, or its date.
pub open spec fn expiry_display(expiry: u64) -> Seq<char> {
    if expiry == 0 {
        "Vĩnh viễn"@
    } else {
        date_text((expiry / 86400) as int)
    }
}

/// Shows an expiry as `Vĩnh viễn` (lifetime) or `YYYY-MM-DD`.
pub fn expiry_to_display(expiry: u64) -> (res: String)
    ensures
        res@ == expiry_display(expiry),
{
    if expiry == 0 {
        return "Vĩnh viễn".to_owned();
    }
    string_of(format_date(expiry / 86400).as_slice())
}

} // verus!
