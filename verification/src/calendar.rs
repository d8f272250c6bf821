//! Calendar dates of the Unix epoch day count.
//!
//! [`days_to_ymd`] follows Howard Hinnant's `civil_from_days`, which reads a
//! day count through 400-year eras that start on a March 1st. Its contract is
//! stated with the calendar itself: the result is the date reached by
//! stepping `days` times from 1970-01-01 to the next day.

use vstd::prelude::*;
use crate::text::{decimal, push_padded, string_from_chars, zero_pad};

verus! {

/// Year of the era (0 to 399) of day `doe` of a 400-year era.
#[verifier::opaque]
spec fn yoe_of(doe: int) -> int {
    (doe - doe / 1460 + doe / 36524 - doe / 146096) / 365
}

/// Day of the March-based year of day `doe` of a 400-year era.
#[verifier::opaque]
spec fn doy_of(doe: int) -> int {
    let yoe = yoe_of(doe);
    doe - (365 * yoe + yoe / 4 - yoe / 100)
}

/// Whether year `yoe` of an era (counted from March) holds a February 29th.
spec fn cycle_leap(yoe: int) -> bool {
    let y = yoe + 1;
    (y % 4 == 0 && y % 100 != 0) || y % 400 == 0
}

/// Number of days of year `yoe` of an era (counted from March).
spec fn cycle_year_len(yoe: int) -> int {
    if cycle_leap(yoe) { 366 } else { 365 }
}

/// Every day of an era lies in a year of the era, within that year's length.
proof fn lemma_doy_range(doe: int)
    requires
        0 <= doe < 146097,
    ensures
        0 <= yoe_of(doe) < 400,
        0 <= doy_of(doe) < cycle_year_len(yoe_of(doe)),
{
    reveal(yoe_of);
    reveal(doy_of);
}

/// First day of year `yoe` within its era.
spec fn year_start(yoe: int) -> int {
    365 * yoe + yoe / 4 - yoe / 100
}

/// Consecutive years of an era follow each other without gap.
proof fn lemma_year_start_step(k: int)
    requires
        0 <= k < 399,
    ensures
        year_start(k + 1) == year_start(k) + cycle_year_len(k),
{
}

/// The year of the era never goes back, nor jumps, from one day to the next.
proof fn lemma_yoe_step(doe: int)
    requires
        0 <= doe < 146096,
    ensures
        yoe_of(doe) <= yoe_of(doe + 1) <= yoe_of(doe) + 1,
{
    reveal(yoe_of);
    let f0 = doe - doe / 1460 + doe / 36524 - doe / 146096;
    let f1 = (doe + 1) - (doe + 1) / 1460 + (doe + 1) / 36524 - (doe + 1) / 146096;
    assert(doe / 1460 <= (doe + 1) / 1460 <= doe / 1460 + 1);
    assert(doe / 36524 <= (doe + 1) / 36524 <= doe / 36524 + 1);
    assert(doe / 146096 == 0 && (doe + 1) / 146096 <= 1);
    assert(f0 <= f1 <= f0 + 2);
    assert(f0 / 365 <= f1 / 365 <= f0 / 365 + 1);
}

/// The next day of an era is the next day of the same year, or the first day
/// of the next year after the last day of this one.
proof fn lemma_doe_step(doe: int)
    requires
        0 <= doe < 146096,
    ensures
        (yoe_of(doe + 1) == yoe_of(doe) && doy_of(doe + 1) == doy_of(doe) + 1)
        || (yoe_of(doe + 1) == yoe_of(doe) + 1 && doy_of(doe + 1) == 0 && doy_of(doe) == cycle_year_len(yoe_of(doe)) - 1),
{
    reveal(doy_of);
    lemma_doy_range(doe);
    lemma_doy_range(doe + 1);
    lemma_yoe_step(doe);
    let k = yoe_of(doe);
    assert(doy_of(doe) == doe - year_start(k));
    assert(doy_of(doe + 1) == doe + 1 - year_start(yoe_of(doe + 1)));
    if yoe_of(doe + 1) == k + 1 {
        lemma_year_start_step(k);
    }
}

/// The first and last days of an era.
proof fn lemma_doe_last()
    ensures
        yoe_of(146096) == 399,
        doy_of(146096) == 365,
        yoe_of(0) == 0,
        doy_of(0) == 0,
{
    reveal(yoe_of);
    reveal(doy_of);
}

/// Month of day `doy` of a March-based year (March = 0, ..., February = 11).
#[verifier::opaque]
spec fn month_index_of(doy: int) -> int {
    (5 * doy + 2) / 153
}

/// Day of the month (from 1) of day `doy` of a March-based year.
#[verifier::opaque]
spec fn day_of_month_of(doy: int) -> int {
    doy - (153 * month_index_of(doy) + 2) / 5 + 1
}

/// Length of the month with index `mp` of a year starting in March
/// (March = 0, ..., February = 11).
spec fn march_month_len(mp: int, leap: bool) -> int {
    if mp == 11 {
        if leap { 29 } else { 28 }
    } else if mp == 1 || mp == 3 || mp == 6 || mp == 8 {
        30
    } else {
        31
    }
}

/// Every day of a March-based year lies in a month, within its length.
proof fn lemma_month_range(doy: int, leap: bool)
    requires
        0 <= doy < (if leap { 366int } else { 365int }),
    ensures
        0 <= month_index_of(doy) <= 11,
        1 <= day_of_month_of(doy) <= march_month_len(month_index_of(doy), leap),
        doy == (if leap { 365int } else { 364int }) ==> month_index_of(doy) == 11
            && day_of_month_of(doy) == march_month_len(11, leap),
{
    reveal(month_index_of);
    reveal(day_of_month_of);
}

/// The next day of a March-based year is in the same month or starts the next.
proof fn lemma_month_step(doy: int, leap: bool)
    requires
        0 <= doy,
        doy + 1 < (if leap { 366int } else { 365int }),
    ensures
        (month_index_of(doy + 1) == month_index_of(doy) && day_of_month_of(doy + 1)
            == day_of_month_of(doy) + 1 && day_of_month_of(doy) < march_month_len(
            month_index_of(doy),
            leap,
        )) || (month_index_of(doy + 1) == month_index_of(doy) + 1 && day_of_month_of(doy + 1)
            == 1 && day_of_month_of(doy) == march_month_len(month_index_of(doy), leap)),
{
    reveal(month_index_of);
    reveal(day_of_month_of);
}

/// Gregorian leap year.
pub open spec fn is_leap_year(y: int) -> bool {
    (y % 4 == 0 && y % 100 != 0) || y % 400 == 0
}

/// Number of days of month `m` (1 to 12) of year `y`.
pub open spec fn days_in_month(y: int, m: int) -> int {
    if m == 2 {
        if is_leap_year(y) { 29 } else { 28 }
    } else if m == 4 || m == 6 || m == 9 || m == 11 {
        30
    } else {
        31
    }
}

/// The calendar day after (year, month, day).
pub open spec fn next_day(date: (int, int, int)) -> (int, int, int) {
    if date.2 < days_in_month(date.0, date.1) {
        (date.0, date.1, date.2 + 1)
    } else if date.1 < 12 {
        (date.0, date.1 + 1, 1)
    } else {
        (date.0 + 1, 1, 1)
    }
}

/// The (year, month, day) that lies `days` days after 1970-01-01.
pub open spec fn date_after_epoch(days: nat) -> (int, int, int)
    decreases days,
{
    if days == 0 {
        (1970, 1, 1)
    } else {
        next_day(date_after_epoch((days - 1) as nat))
    }
}

/// The date of day `doe` of 400-year era `era`, where eras of 146097 days
/// are counted from 0000-03-01.
spec fn civil_parts(era: int, doe: int) -> (int, int, int) {
    let mp = month_index_of(doy_of(doe));
    let m = if mp < 10 { mp + 3 } else { mp - 9 };
    (yoe_of(doe) + era * 400 + (if m <= 2 { 1int } else { 0int }), m, day_of_month_of(doy_of(doe)))
}

/// The date of day `n` after the epoch.
spec fn civil_of(n: int) -> (int, int, int) {
    civil_parts((n + 719468) / 146097, (n + 719468) % 146097)
}

/// Leap years repeat every 400 years.
proof fn lemma_leap_shift(x: int, era: int)
    ensures
        is_leap_year(x + era * 400) == is_leap_year(x),
{
    assert((x + era * 400) % 4 == x % 4) by {
        vstd::arithmetic::div_mod::lemma_mod_multiples_vanish(era * 100, x, 4);
    }
    assert((x + era * 400) % 100 == x % 100) by {
        vstd::arithmetic::div_mod::lemma_mod_multiples_vanish(era * 4, x, 100);
    }
    assert((x + era * 400) % 400 == x % 400) by {
        vstd::arithmetic::div_mod::lemma_mod_multiples_vanish(era, x, 400);
    }
}

/// Month lengths of the March-based reading agree with the calendar's.
proof fn lemma_parts_month_lengths(era: int, doe: int)
    requires
        0 <= doe < 146097,
    ensures
        ({
            let mp = month_index_of(doy_of(doe));
            let date = civil_parts(era, doe);
            days_in_month(date.0, date.1) == march_month_len(mp, cycle_leap(yoe_of(doe)))
        }),
{
    lemma_doy_range(doe);
    lemma_month_range(doy_of(doe), cycle_leap(yoe_of(doe)));
    let yoe = yoe_of(doe);
    assert(is_leap_year(yoe + 1 + era * 400) == cycle_leap(yoe)) by {
        lemma_leap_shift(yoe + 1, era);
    }
}

/// Within an era, the next day count gives the next calendar day.
proof fn lemma_parts_step(era: int, doe: int)
    requires
        0 <= doe < 146096,
    ensures
        civil_parts(era, doe + 1) == next_day(civil_parts(era, doe)),
{
    let yoe = yoe_of(doe);
    let doy = doy_of(doe);
    let leap = cycle_leap(yoe);
    lemma_doy_range(doe);
    lemma_month_range(doy, leap);
    lemma_parts_month_lengths(era, doe);
    lemma_doe_step(doe);
    lemma_doy_range(doe + 1);
    let mp = month_index_of(doy);
    let date = civil_parts(era, doe);
    assert(days_in_month(date.0, date.1) == march_month_len(mp, leap));
    if yoe_of(doe + 1) == yoe {
        lemma_month_step(doy, leap);
        if month_index_of(doy + 1) == mp {
            assert(civil_parts(era, doe + 1) == next_day(date));
        } else {
            lemma_month_range(doy + 1, leap);
            assert(mp <= 10);
            assert(civil_parts(era, doe + 1) == next_day(date));
        }
    } else {
        reveal(month_index_of);
        reveal(day_of_month_of);
        assert(month_index_of(0) == 0 && day_of_month_of(0) == 1);
        assert(mp == 11);
        assert(date.1 == 2);
        assert(civil_parts(era, doe + 1) == next_day(date));
    }
}

/// The first day of an era follows the last day of the previous one.
proof fn lemma_parts_era_end(era: int)
    ensures
        civil_parts(era + 1, 0) == next_day(civil_parts(era, 146096)),
{
    lemma_doe_last();
    lemma_parts_month_lengths(era, 146096);
    reveal(month_index_of);
    reveal(day_of_month_of);
    assert(month_index_of(0) == 0 && day_of_month_of(0) == 1);
    assert(month_index_of(365) == 11 && day_of_month_of(365) == 29);
    assert(is_leap_year(400 + era * 400)) by {
        lemma_leap_shift(400, era);
    }
}

/// The next day count gives the next calendar day.
proof fn lemma_civil_step(n: int)
    requires
        n >= 0,
    ensures
        civil_of(n + 1) == next_day(civil_of(n)),
{
    let z = n + 719468;
    let era = z / 146097;
    let doe = z % 146097;
    if doe < 146096 {
        assert((z + 1) / 146097 == era && (z + 1) % 146097 == doe + 1);
        lemma_parts_step(era, doe);
    } else {
        assert((z + 1) / 146097 == era + 1 && (z + 1) % 146097 == 0);
        lemma_parts_era_end(era);
    }
}

/// The era reading of a day count is the date that many days after the epoch.
proof fn lemma_civil_is_date(n: nat)
    ensures
        civil_of(n as int) == date_after_epoch(n),
    decreases n,
{
    if n == 0 {
        reveal(yoe_of);
        reveal(doy_of);
        reveal(month_index_of);
        reveal(day_of_month_of);
        assert(yoe_of(135080) == 369 && doy_of(135080) == 306);
        assert(month_index_of(306) == 10 && day_of_month_of(306) == 1);
    } else {
        lemma_civil_is_date((n - 1) as nat);
        lemma_civil_step(n - 1);
    }
}

/// Convert days since the Unix epoch to (year, month, day), following Howard
/// Hinnant's `civil_from_days`.
pub fn days_to_ymd(days: u64) -> (r: (u64, u64, u64))
    requires
        days + 719468 <= i64::MAX,
    ensures
        (r.0 as int, r.1 as int, r.2 as int) == date_after_epoch(days as nat),
{
    let z: u64 = days + 719468;
    let era: u64 = z / 146097;
    let doe: u64 = z - era * 146097;
    assert(doe == z % 146097);
    proof {
        lemma_doy_range(doe as int);
    }
    let yoe: u64 = (doe - doe / 1460 + doe / 36524 - doe / 146096) / 365;
    assert(yoe == yoe_of(doe as int)) by {
        reveal(yoe_of);
    }
    let y: u64 = yoe + era * 400;
    let doy: u64 = doe - (365 * yoe + yoe / 4 - yoe / 100);
    assert(doy == doy_of(doe as int)) by {
        reveal(doy_of);
    }
    proof {
        lemma_month_range(doy as int, cycle_leap(yoe as int));
    }
    let mp: u64 = (5 * doy + 2) / 153;
    let d: u64 = doy - (153 * mp + 2) / 5 + 1;
    assert(mp == month_index_of(doy as int) && d == day_of_month_of(doy as int)) by {
        reveal(month_index_of);
        reveal(day_of_month_of);
    }
    let m: u64 = if mp < 10 { mp + 3 } else { mp - 9 };
    let y = if m <= 2 { y + 1 } else { y };
    proof {
        lemma_civil_is_date(days as nat);
    }
    (y, m, d)
}

/// A converted date is a valid calendar date.
pub proof fn lemma_date_after_epoch_valid(n: nat)
    ensures
        1 <= date_after_epoch(n).1 <= 12,
        1 <= date_after_epoch(n).2 <= days_in_month(date_after_epoch(n).0, date_after_epoch(n).1),
        date_after_epoch(n).0 >= 1970,
    decreases n,
{
    if n > 0 {
        lemma_date_after_epoch_valid((n - 1) as nat);
    }
}

/// `n` in decimal, padded with zeros to at least `width` digits.
pub open spec fn padded(n: int, width: nat) -> Seq<char> {
    zero_pad(decimal(n as nat), width)
}

/// The UTC timestamp `YYYY-MM-DDTHH:MM:SSZ` of `secs` seconds after the epoch.
pub open spec fn utc_timestamp_text(secs: nat) -> Seq<char> {
    let date = date_after_epoch(secs / 86400);
    let tod = (secs % 86400) as int;
    padded(date.0, 4) + seq!['-'] + padded(date.1, 2) + seq!['-'] + padded(date.2, 2) + seq!['T']
        + padded(tod / 3600, 2) + seq![':'] + padded((tod % 3600) / 60, 2) + seq![':'] + padded(
        tod % 60,
        2,
    ) + seq!['Z']
}

/// Format `secs` seconds after the Unix epoch as a UTC timestamp
/// `YYYY-MM-DDTHH:MM:SSZ`.
pub fn format_utc_timestamp(secs: u64) -> (r: String)
    ensures
        r@ == utc_timestamp_text(secs as nat),
{
    let days = secs / 86400;
    let time_of_day = secs % 86400;
    let hours = time_of_day / 3600;
    let minutes = (time_of_day % 3600) / 60;
    let seconds = time_of_day % 60;
    let (year, month, day) = days_to_ymd(days);
    proof {
        lemma_date_after_epoch_valid(days as nat);
    }
    let mut v: Vec<char> = Vec::new();
    push_padded(&mut v, year, 4);
    v.push('-');
    push_padded(&mut v, month, 2);
    v.push('-');
    push_padded(&mut v, day, 2);
    v.push('T');
    push_padded(&mut v, hours, 2);
    v.push(':');
    push_padded(&mut v, minutes, 2);
    v.push(':');
    push_padded(&mut v, seconds, 2);
    v.push('Z');
    assert(v@ =~= utc_timestamp_text(secs as nat));
    string_from_chars(v.as_slice())
}

} // verus!
