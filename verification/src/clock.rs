//! Wall clock and calendar: the clock is set from the network and then carried
//! on by a monotonic timer; local time follows a fixed offset and a
//! daylight-saving rule.

use crate::storage::{ClockConfig, DstRule};
use vstd::prelude::*;

verus! {

/// Seconds of one day.
pub const SECONDS_PER_DAY: i64 = 86_400;

/// Microseconds of one second, the unit of the monotonic timer.
pub const MICROS_PER_SECOND: u64 = 1_000_000;

// ---------------------------------------------------------------------------
// The proleptic Gregorian calendar
// ---------------------------------------------------------------------------

/// Whether `year` has a 29th of February.
pub open spec fn is_leap(year: int) -> bool {
    year % 4 == 0 && (year % 100 != 0 || year % 400 == 0)
}

/// The number of days of a month.
pub open spec fn month_length(year: int, month: int) -> int {
    if month == 2 {
        if is_leap(year) {
            29
        } else {
            28
        }
    } else if month == 4 || month == 6 || month == 9 || month == 11 {
        30
    } else {
        31
    }
}

/// The days of the year that lie before the first of `month`.
pub open spec fn days_before_month(year: int, month: int) -> int
    decreases month,
{
    if month <= 1 {
        0
    } else {
        days_before_month(year, month - 1) + month_length(year, month - 1)
    }
}

/// The leap years among the years 1 to `year` (negative before year 1).
pub open spec fn leap_years_through(year: int) -> int {
    year / 4 - year / 100 + year / 400
}

/// The day number of the first of January: days since 1970-01-01.
pub open spec fn days_before_year(year: int) -> int {
    365 * (year - 1970) + leap_years_through(year - 1) - leap_years_through(1969)
}

/// The day number of a date: days since 1970-01-01.
pub open spec fn day_number(year: int, month: int, day: int) -> int {
    days_before_year(year) + days_before_month(year, month) + day - 1
}

/// Whether the three numbers name a day of the calendar.
pub open spec fn is_date(year: int, month: int, day: int) -> bool {
    1 <= month <= 12 && 1 <= day <= month_length(year, month)
}

/// 1970-01-01 was a Thursday.
pub open spec fn is_sunday(day: int) -> bool {
    (day + 4) % 7 == 0
}

/// The day number of the last day of a month.
pub open spec fn month_end(year: int, month: int) -> int {
    day_number(year, month, month_length(year, month))
}

/// The day number of the last Sunday of a month.
pub open spec fn final_sunday(year: int, month: int) -> int {
    month_end(year, month) - (month_end(year, month) + 4) % 7
}

/// The summer time of one year: from 01:00 UTC on the last Sunday of March
/// until 01:00 UTC on the last Sunday of October.
pub open spec fn in_summer_of(year: int, utc: int) -> bool {
    final_sunday(year, 3) * 86_400 + 3_600 <= utc < final_sunday(year, 10) * 86_400 + 3_600
}

/// Whether an instant lies in the summer time of any year.
pub open spec fn in_summer(utc: int) -> bool {
    exists|year: int| in_summer_of(year, utc)
}

/// A number of 64 bits read as a two's complement number.
pub open spec fn signed(bits: u64) -> int {
    if bits < 0x8000_0000_0000_0000 {
        bits as int
    } else {
        bits - 0x1_0000_0000_0000_0000
    }
}

/// The instants far enough from the ends of the 64-bit range for the calendar
/// arithmetic of the following year.
pub open spec fn representable(unix_seconds: u64) -> bool {
    -9_223_372_036_700_000_000 <= signed(unix_seconds) <= 9_223_372_036_700_000_000
}

/// Seconds since 1970-01-01 00:00 local time.
pub open spec fn local_time(unix_seconds: u64, utc_offset_minutes: int, dst: DstRule) -> int {
    signed(unix_seconds) + utc_offset_minutes * 60 + if dst == DstRule::Eu && in_summer(
        signed(unix_seconds),
    ) {
        3_600int
    } else {
        0int
    }
}

// ---------------------------------------------------------------------------
// Laws of the calendar
// ---------------------------------------------------------------------------

/// The months of a year fill it.
pub proof fn year_has_its_months(year: int)
    ensures
        days_before_month(year, 13) == if is_leap(year) {
            366int
        } else {
            365int
        },
{
    reveal_with_fuel(days_before_month, 14);
}

/// The quotients by which leap years are counted grow at their multiples.
#[verifier::spinoff_prover]
proof fn quotients_step(year: int)
    ensures
        year / 4 == (year - 1) / 4 + if year % 4 == 0 {
            1int
        } else {
            0int
        },
        year / 100 == (year - 1) / 100 + if year % 100 == 0 {
            1int
        } else {
            0int
        },
        year / 400 == (year - 1) / 400 + if year % 400 == 0 {
            1int
        } else {
            0int
        },
{
}

/// Every 400th year is a 100th, and every 100th a fourth.
#[verifier::spinoff_prover]
proof fn multiples_nest(year: int)
    ensures
        year % 100 == 0 ==> year % 4 == 0,
        year % 400 == 0 ==> year % 100 == 0,
{
    if year % 100 == 0 {
        assert(year == 4 * (25 * (year / 100)));
    }
    if year % 400 == 0 {
        assert(year == 100 * (4 * (year / 400)));
    }
}

/// A year begins where the one before it ends.
#[verifier::spinoff_prover]
pub proof fn years_follow_each_other(year: int)
    ensures
        days_before_year(year + 1) == days_before_year(year) + days_before_month(year, 13),
{
    year_has_its_months(year);
    quotients_step(year);
    multiples_nest(year);
}

/// Later months begin later, and end before the next year.
proof fn months_grow(year: int, low: int, high: int)
    requires
        1 <= low <= high <= 13,
    ensures
        days_before_month(year, low) <= days_before_month(year, high),
        low < high ==> days_before_month(year, low) + month_length(year, low) <= days_before_month(
            year,
            high,
        ),
    decreases high - low,
{
    if low < high {
        months_grow(year, low, high - 1);
    }
}

/// Later years begin later.
proof fn years_grow(low: int, high: int)
    requires
        low <= high,
    ensures
        days_before_year(low) + 365 * (high - low) <= days_before_year(high),
    decreases high - low,
{
    if low < high {
        years_grow(low, high - 1);
        years_follow_each_other(high - 1);
        year_has_its_months(high - 1);
    }
}

/// A date lies within its year.
proof fn date_within_year(year: int, month: int, day: int)
    requires
        is_date(year, month, day),
    ensures
        days_before_year(year) <= day_number(year, month, day) < days_before_year(year + 1),
{
    months_grow(year, 1, month);
    months_grow(year, month, 13);
    years_follow_each_other(year);
}

/// Different dates have different day numbers.
pub proof fn day_number_is_unique(
    year: int,
    month: int,
    day: int,
    other_year: int,
    other_month: int,
    other_day: int,
)
    requires
        is_date(year, month, day),
        is_date(other_year, other_month, other_day),
        day_number(year, month, day) == day_number(other_year, other_month, other_day),
    ensures
        year == other_year,
        month == other_month,
        day == other_day,
{
    date_within_year(year, month, day);
    date_within_year(other_year, other_month, other_day);
    if year < other_year {
        years_grow(year + 1, other_year);
    } else if other_year < year {
        years_grow(other_year + 1, year);
    }
    if month < other_month {
        months_grow(year, month, other_month);
    } else if other_month < month {
        months_grow(year, other_month, month);
    }
}

/// The last Sunday of a month is a Sunday, lies in the month, and no later
/// Sunday does.
pub proof fn final_sunday_is_the_last(year: int, month: int)
    requires
        1 <= month <= 12,
    ensures
        is_sunday(final_sunday(year, month)),
        day_number(year, month, 1) <= final_sunday(year, month) <= month_end(year, month),
        final_sunday(year, month) + 7 > month_end(year, month),
{
}

/// Summer time lies within its year.
proof fn summer_within_year(year: int, utc: int)
    requires
        in_summer_of(year, utc),
    ensures
        days_before_year(year) * 86_400 <= utc < days_before_year(year + 1) * 86_400,
{
    final_sunday_is_the_last(year, 3);
    final_sunday_is_the_last(year, 10);
    date_within_year(year, 3, 1);
    date_within_year(year, 10, month_length(year, 10));
    date_within_year(year, 12, 1);
    months_grow(year, 10, 12);
}

/// An instant is in summer time exactly if it is in that of its own year.
proof fn summer_of_its_year(year: int, utc: int)
    requires
        days_before_year(year) * 86_400 <= utc < days_before_year(year + 1) * 86_400,
    ensures
        in_summer(utc) == in_summer_of(year, utc),
{
    if in_summer(utc) {
        let other = choose|other: int| in_summer_of(other, utc);
        summer_within_year(other, utc);
        if other < year {
            years_grow(other + 1, year);
        } else if year < other {
            years_grow(year + 1, other);
        }
    }
}

// ---------------------------------------------------------------------------
// Calendar arithmetic
// ---------------------------------------------------------------------------

/// Division rounding down.
fn floor_div(dividend: i64, divisor: i64) -> (quotient: i64)
    requires
        divisor > 0,
    ensures
        quotient == dividend as int / divisor as int,
{
    proof {
        let a = dividend as int;
        let b = divisor as int;
        assert(i64::MIN <= a / b <= i64::MAX) by (nonlinear_arith)
            requires
                i64::MIN <= a <= i64::MAX,
                b > 0,
        ;
    }
    match dividend.checked_div_euclid(divisor) {
        Some(quotient) => quotient,
        None => 0,
    }
}

/// The remainder that goes with `floor_div`.
fn floor_rem(dividend: i64, divisor: i64) -> (remainder: i64)
    requires
        divisor > 0,
    ensures
        remainder == dividend as int % divisor as int,
        0 <= remainder < divisor,
{
    match dividend.checked_rem_euclid(divisor) {
        Some(remainder) => remainder,
        None => 0,
    }
}

/// The days of the year that lie before the first of `month`, counted in a year
/// that begins in March.
proof fn shifted_months(year: int, month: int)
    requires
        1 <= month <= 12,
    ensures
        month > 2 ==> days_before_month(year, month) == (153 * (month - 3) + 2) / 5 + 59 + if is_leap(
            year,
        ) {
            1int
        } else {
            0int
        },
        month <= 2 ==> days_before_month(year, month) == (153 * (month + 9) + 2) / 5 - 306,
{
    reveal_with_fuel(days_before_month, 13);
}

/// A year adds one leap year exactly if it is one.
proof fn leap_years_step(year: int)
    ensures
        leap_years_through(year) == leap_years_through(year - 1) + if is_leap(year) {
            1int
        } else {
            0int
        },
{
    years_follow_each_other(year);
    year_has_its_months(year);
}

/// Eras of 400 years repeat.
proof fn era_shift(year: int, era: int, year_of_era: int)
    requires
        year == era * 400 + year_of_era,
        0 <= year_of_era < 400,
    ensures
        leap_years_through(year) == era * 97 + year_of_era / 4 - year_of_era / 100,
{
    assert(year / 400 == era);
    assert(year / 4 == era * 100 + year_of_era / 4);
    assert(year / 100 == era * 4 + year_of_era / 100);
}

/// Days since 1970-01-01 of a date of the proleptic Gregorian calendar.
pub fn days_from_civil(year: i64, month: u32, day: u32) -> (days: i64)
    requires
        1 <= month <= 12,
        -25_000_000_000_000_000 <= year <= 25_000_000_000_000_000,
    ensures
        days == day_number(year as int, month as int, day as int),
{
    let shifted_year: i64 = if month <= 2 {
        year - 1
    } else {
        year
    };
    let era: i64 = floor_div(shifted_year, 400);
    let year_of_era: i64 = floor_rem(shifted_year, 400);
    let month: i64 = month as i64;
    let shifted_month: i64 = if month > 2 {
        month - 3
    } else {
        month + 9
    };
    let day_of_year: i64 = (153 * shifted_month + 2) / 5 + day as i64 - 1;
    let day_of_era: i64 = year_of_era * 365 + year_of_era / 4 - year_of_era / 100 + day_of_year;
    proof {
        shifted_months(year as int, month as int);
        era_shift(shifted_year as int, era as int, year_of_era as int);
        leap_years_step(year as int);
    }
    era * 146_097 + day_of_era - 719_468
}

/// The year, counted from March and within its era, that holds a day.
#[verifier::spinoff_prover]
proof fn year_of_day(day_of_era: int, year: int)
    requires
        0 <= day_of_era < 146_097,
        year == (day_of_era - day_of_era / 1_460 + day_of_era / 36_524 - day_of_era / 146_096)
            / 365,
    ensures
        0 <= year < 400,
        0 <= day_of_era - (365 * year + year / 4 - year / 100) <= 365,
        day_of_era - (365 * year + year / 4 - year / 100) == 365 ==> is_leap(year + 1),
{
    let century = day_of_era / 36_524;
    let rest = day_of_era - 36_524 * century;
    let four = day_of_era / 1_460;
    if century == 4 {
        assert(day_of_era == 146_096);
    } else {
        // Within a century only the fourth years add a day.
        let n = rest - (four - 25 * century) ;
        assert(year == 100 * century + n / 365);
        let y = n / 365;
        assert(0 <= rest < 36_524);
        assert(0 <= y < 100);
        assert(365 * y + y / 4 <= rest <= 365 * y + y / 4 + 365);
        assert(rest == 365 * y + y / 4 + 365 ==> (y + 1) % 4 == 0 && y != 99);
    }
}

/// The month and the day that a day of a year counted from March falls on.
proof fn civil_fields(year: int, day_of_year: int, shifted_month: int, month: int, day: int)
    requires
        0 <= day_of_year <= 365,
        day_of_year == 365 ==> is_leap(year),
        shifted_month == (5 * day_of_year + 2) / 153,
        month == if shifted_month < 10 {
            shifted_month + 3
        } else {
            shifted_month - 9
        },
        day == day_of_year - (153 * shifted_month + 2) / 5 + 1,
    ensures
        is_date(year, month, day),
        month <= 2 <==> day_of_year >= 306,
        month > 2 ==> days_before_month(year, month) + day - 1 == day_of_year + 59 + if is_leap(
            year,
        ) {
            1int
        } else {
            0int
        },
        month <= 2 ==> days_before_month(year, month) + day - 1 == day_of_year - 306,
{
    assert(0 <= shifted_month <= 11);
    assert(1 <= month <= 12);
    shifted_months(year, month);
    assert(shifted_month <= 1 || shifted_month == 2 || shifted_month == 3 || shifted_month == 4
        || shifted_month == 5 || shifted_month == 6 || shifted_month == 7 || shifted_month == 8
        || shifted_month == 9 || shifted_month == 10 || shifted_month == 11);
}

/// Leap years come again after 400 years.
proof fn leap_years_repeat(year: int, era: int)
    ensures
        is_leap(year) == is_leap(year + era * 400),
{
    assert((year + era * 400) % 400 == year % 400);
    assert((year + era * 400) % 100 == year % 100);
    assert((year + era * 400) % 4 == year % 4);
}

/// A day of an era, given by its year and its day counted from March, is the
/// date with the month and the day that it falls on.
#[verifier::spinoff_prover]
#[verifier::rlimit(40)]
proof fn civil_date(era: int, year_of_era: int, day_of_year: int, shifted_month: int)
    requires
        0 <= year_of_era < 400,
        0 <= day_of_year <= 365,
        day_of_year == 365 ==> is_leap(year_of_era + 1),
        shifted_month == (5 * day_of_year + 2) / 153,
    ensures
        ({
            let month = if shifted_month < 10 {
                shifted_month + 3
            } else {
                shifted_month - 9
            };
            let day = day_of_year - (153 * shifted_month + 2) / 5 + 1;
            let year = year_of_era + era * 400 + if month <= 2 {
                1int
            } else {
                0int
            };
            &&& is_date(year, month, day)
            &&& day_number(year, month, day) == era * 146_097 + (365 * year_of_era + year_of_era / 4
                - year_of_era / 100) + day_of_year - 719_468
        }),
{
    let month = if shifted_month < 10 {
        shifted_month + 3
    } else {
        shifted_month - 9
    };
    let day = day_of_year - (153 * shifted_month + 2) / 5 + 1;
    let shifted_year = year_of_era + era * 400;
    let year = shifted_year + if month <= 2 {
        1int
    } else {
        0int
    };
    leap_years_repeat(year_of_era + 1, era);
    assert(day_of_year >= 306 <==> month <= 2);
    civil_fields(year, day_of_year, shifted_month, month, day);
    era_shift(shifted_year, era, year_of_era);
    leap_years_step(year);
}

/// The date of the proleptic Gregorian calendar with a given day number.
pub fn civil_from_days(days: i64) -> (date: (i64, u32, u32))
    requires
        days <= i64::MAX - 719_468,
    ensures
        is_date(date.0 as int, date.1 as int, date.2 as int),
        day_number(date.0 as int, date.1 as int, date.2 as int) == days,
        -25_300_000_000_000_000 <= date.0 <= 25_300_000_000_000_000,
{
    let days: i64 = days + 719_468;
    let era: i64 = floor_div(days, 146_097);
    let day_of_era: i64 = floor_rem(days, 146_097);
    let year_of_era: i64 = (day_of_era - day_of_era / 1_460 + day_of_era / 36_524 - day_of_era
        / 146_096) / 365;
    proof {
        year_of_day(day_of_era as int, year_of_era as int);
    }
    let day_of_year: i64 = day_of_era - (365 * year_of_era + year_of_era / 4 - year_of_era / 100);
    let shifted_month: i64 = (5 * day_of_year + 2) / 153;
    let day: u32 = (day_of_year - (153 * shifted_month + 2) / 5 + 1) as u32;
    let month: u32 = if shifted_month < 10 {
        (shifted_month + 3) as u32
    } else {
        (shifted_month - 9) as u32
    };
    let year: i64 = year_of_era + era * 400 + if month <= 2 {
        1
    } else {
        0
    };
    proof {
        civil_date(era as int, year_of_era as int, day_of_year as int, shifted_month as int);
    }
    (year, month, day)
}

/// Day number of the last Sunday of `month`.
pub fn last_sunday(year: i64, month: u32) -> (day: i64)
    requires
        1 <= month <= 12,
        -24_000_000_000_000_000 <= year <= 24_000_000_000_000_000,
    ensures
        day == final_sunday(year as int, month as int),
{
    let next_year: i64 = if month == 12 {
        year + 1
    } else {
        year
    };
    let next_month: u32 = if month == 12 {
        1
    } else {
        month + 1
    };
    let next: i64 = days_from_civil(next_year, next_month, 1);
    proof {
        years_follow_each_other(year as int);
        assert(next - 1 == month_end(year as int, month as int));
        assert(days_before_year(year as int) >= -8_900_000_000_000_000_000);
        assert(days_before_year(year as int) <= 8_900_000_000_000_000_000);
        months_grow(year as int, 1, month as int);
        months_grow(year as int, month as int, 13);
        year_has_its_months(year as int);
    }
    let last_day: i64 = next - 1;
    last_day - floor_rem(last_day + 4, 7)
}

/// EU summer time: from 01:00 UTC on the last Sunday of March until 01:00 UTC on
/// the last Sunday of October.
pub fn eu_summer_time(utc: i64) -> (summer: bool)
    requires
        -9_223_372_036_700_000_000 <= utc <= 9_223_372_036_700_000_000,
    ensures
        summer == in_summer(utc as int),
{
    let days: i64 = floor_div(utc, SECONDS_PER_DAY);
    let (year, month, day) = civil_from_days(days);
    proof {
        let year = year as int;
        date_within_year(year, month as int, day as int);
        years_follow_each_other(year);
        year_has_its_months(year);
        summer_of_its_year(year, utc as int);
        assert(days_before_year(year) <= days);
        assert(days < days_before_year(year) + 366);
        assert(-1_000_000_000_000 <= year <= 1_000_000_000_000);
        final_sunday_is_the_last(year, 3);
        final_sunday_is_the_last(year, 10);
        months_grow(year, 1, 3);
        months_grow(year, 3, 13);
        months_grow(year, 1, 10);
        months_grow(year, 10, 13);
    }
    let start: i64 = last_sunday(year, 3) * SECONDS_PER_DAY + 3600;
    let end: i64 = last_sunday(year, 10) * SECONDS_PER_DAY + 3600;
    start <= utc && utc < end
}

/// Seconds since 1970-01-01 00:00 *local* time (offset and DST applied).
pub fn local_seconds(unix_seconds: u64, config: &ClockConfig) -> (local: i64)
    requires
        representable(unix_seconds),
    ensures
        local == local_time(unix_seconds, config.utc_offset_minutes as int, config.dst),
{
    let utc: i64 = if unix_seconds < 0x8000_0000_0000_0000 {
        unix_seconds as i64
    } else {
        -((0xffff_ffff_ffff_ffff - unix_seconds) as i64) - 1
    };
    let mut local: i64 = utc + config.utc_offset_minutes as i64 * 60;
    if config.dst == DstRule::Eu && eu_summer_time(utc) {
        local += 3600;
    }
    local
}

/// Local time as (hours, minutes) for the configured offset and DST rule.
pub fn local_hh_mm(unix_seconds: u64, config: &ClockConfig) -> (time: (u8, u8))
    requires
        representable(unix_seconds),
    ensures
        time.0 == local_time(unix_seconds, config.utc_offset_minutes as int, config.dst) % 86_400
            / 3_600,
        time.1 == local_time(unix_seconds, config.utc_offset_minutes as int, config.dst) % 3_600
            / 60,
        time.0 < 24 && time.1 < 60,
        0 <= local_time(unix_seconds, config.utc_offset_minutes as int, config.dst) % 86_400 - (
        3_600 * time.0 + 60 * time.1) < 60,
{
    let local: i64 = local_seconds(unix_seconds, config);
    let seconds_of_day: i64 = floor_rem(local, SECONDS_PER_DAY);
    ((seconds_of_day / 3600) as u8, ((seconds_of_day % 3600) / 60) as u8)
}

/// Calendar fields of a [`local_seconds`] value.
#[derive(Clone, Copy, Debug)]
pub struct DateTime {
    pub year: i64,
    pub month: u32,
    pub day: u32,
    pub hour: u32,
    pub minute: u32,
    pub second: u32,
}

impl DateTime {
    /// Whether the fields name a second of the calendar.
    pub open spec fn is_valid(self) -> bool {
        &&& is_date(self.year as int, self.month as int, self.day as int)
        &&& self.hour < 24
        &&& self.minute < 60
        &&& self.second < 60
    }

    /// Seconds since 1970-01-01 00:00.
    pub open spec fn seconds(self) -> int {
        day_number(self.year as int, self.month as int, self.day as int) * 86_400 + self.hour
            * 3_600 + self.minute * 60 + self.second
    }
}

/// The calendar fields of a number of seconds since 1970-01-01 00:00: the valid
/// ones that stand for it.
pub open spec fn calendar(seconds: int) -> DateTime {
    choose|time: DateTime| #[trigger] time.is_valid() && time.seconds() == seconds
}

/// The calendar fields of a number of seconds since 1970-01-01 00:00.
pub fn date_time(seconds: i64) -> (time: DateTime)
    ensures
        time.is_valid(),
        time.seconds() == seconds,
        time == calendar(seconds as int),
{
    let (year, month, day) = civil_from_days(floor_div(seconds, SECONDS_PER_DAY));
    let seconds_of_day: u32 = floor_rem(seconds, SECONDS_PER_DAY) as u32;
    let time = DateTime {
        year,
        month,
        day,
        hour: seconds_of_day / 3600,
        minute: seconds_of_day % 3600 / 60,
        second: seconds_of_day % 60,
    };
    assert(time.is_valid() && time.seconds() == seconds);
    proof {
        date_time_is_unique(time, calendar(seconds as int));
    }
    time
}

/// Only one set of calendar fields stands for a given second.
pub proof fn date_time_is_unique(time: DateTime, other: DateTime)
    requires
        time.is_valid(),
        other.is_valid(),
        time.seconds() == other.seconds(),
    ensures
        time == other,
{
    let day = day_number(time.year as int, time.month as int, time.day as int);
    let other_day = day_number(other.year as int, other.month as int, other.day as int);
    assert(day == time.seconds() / 86_400);
    assert(other_day == other.seconds() / 86_400);
    day_number_is_unique(
        time.year as int,
        time.month as int,
        time.day as int,
        other.year as int,
        other.month as int,
        other.day as int,
    );
}

/// The years that 32 bits of seconds reach.
pub proof fn year_of_seconds(time: DateTime)
    requires
        time.is_valid(),
        0 <= time.seconds() <= u32::MAX,
    ensures
        1970 <= time.year <= 2106,
{
    let year = time.year as int;
    date_within_year(year, time.month as int, time.day as int);
    if year < 1970 {
        years_grow(year + 1, 1970);
    } else if year > 2106 {
        years_grow(2107, year);
    }
}

// ---------------------------------------------------------------------------
// The wall clock
// ---------------------------------------------------------------------------

/// Network time carried on by the monotonic timer, so it keeps running from the
/// last sync when Wi-Fi drops.
pub struct WallClock {
    /// Unix seconds at the moment of the last sync, and when that moment was,
    /// in microseconds of the monotonic timer.
    pub synced: Option<(u64, u64)>,
}

/// Whole seconds between two readings of the monotonic timer, which wraps
/// around.
pub open spec fn elapsed_seconds(since: u64, now: u64) -> int {
    (if now >= since {
        now - since
    } else {
        now - since + 0x1_0000_0000_0000_0000
    }) / 1_000_000
}

impl WallClock {
    /// The time set leaves room for the longest time the timer can count.
    pub open spec fn wf(self) -> bool {
        self.synced matches Some((unix_seconds, _)) ==> unix_seconds + 18_446_744_073_709
            <= u64::MAX
    }

    pub fn set(&mut self, unix_seconds: u64, at: u64)
        requires
            unix_seconds + 18_446_744_073_709 <= u64::MAX,
        ensures
            final(self).wf(),
            final(self).synced == Some((unix_seconds, at)),
    {
        self.synced = Some((unix_seconds, at));
    }

    pub fn is_synced(&self) -> (synced: bool)
        ensures
            synced == self.synced is Some,
    {
        self.synced.is_some()
    }

    /// The time at `now`, a reading of the monotonic timer.
    pub fn unix_now(&self, now: u64) -> (unix_seconds: Option<u64>)
        requires
            self.wf(),
        ensures
            match self.synced {
                Some((set_to, at)) => unix_seconds == Some(
                    (set_to + elapsed_seconds(at, now)) as u64,
                ) && set_to + elapsed_seconds(at, now) <= u64::MAX,
                None => unix_seconds is None,
            },
            self.synced matches Some((set_to, at)) ==> now >= at ==> (unix_seconds matches Some(
                seconds,
            ) && 0 <= (now - at) - 1_000_000 * (seconds - set_to) < 1_000_000),
    {
        match self.synced {
            Some((unix_seconds, at)) => Some(
                unix_seconds + now.wrapping_sub(at) / MICROS_PER_SECOND,
            ),
            None => None,
        }
    }
}

impl Default for WallClock {
    fn default() -> (clock: Self)
        ensures
            clock.wf(),
            clock.synced is None,
    {
        WallClock { synced: None }
    }
}

// ---------------------------------------------------------------------------
// Timers
// ---------------------------------------------------------------------------

/// A moment in microseconds has come: it is not more than half the range ahead.
/// The timer may wrap around.
pub open spec fn has_come(now: u64, moment: u64) -> bool {
    now.wrapping_sub(moment) <= 0x7fff_ffff_ffff_ffff
}

/// Whether a moment in microseconds has come.
pub fn reached(now: u64, moment: u64) -> (yes: bool)
    ensures
        yes == has_come(now, moment),
{
    now.wrapping_sub(moment) <= 0x7fff_ffff_ffff_ffff
}

// ---------------------------------------------------------------------------
// Laws of days and seconds
// ---------------------------------------------------------------------------

/// The lengths of the months, by knuckles and gaps; February has a day more in years that four
/// divides, but not a hundred, unless four hundred does.
pub proof fn months_have_their_lengths(year: int, month: int)
    requires
        1 <= month <= 12,
    ensures
        month == 1 || month == 3 || month == 5 || month == 7 || month == 8 || month == 10 || month
            == 12 ==> month_length(year, month) == 31,
        month == 4 || month == 6 || month == 9 || month == 11 ==> month_length(year, month) == 30,
        month == 2 && year % 400 == 0 ==> month_length(year, month) == 29,
        month == 2 && year % 400 != 0 && year % 100 == 0 ==> month_length(year, month) == 28,
        month == 2 && year % 100 != 0 && year % 4 == 0 ==> month_length(year, month) == 29,
        month == 2 && year % 4 != 0 ==> month_length(year, month) == 28,
{
    if year % 400 == 0 {
        assert(year % 100 == 0);
        assert(year % 4 == 0);
    }
    if year % 100 == 0 {
        assert(year % 4 == 0);
    }
}

/// Days are counted from the first of January 1970, one after another: within a month, from
/// its end to the first of the next, and from the end of a year to the first of January.
pub proof fn days_follow_each_other(year: int, month: int, day: int)
    requires
        is_date(year, month, day),
    ensures
        day_number(1970, 1, 1) == 0,
        day < month_length(year, month) ==> day_number(year, month, day + 1) == day_number(
            year,
            month,
            day,
        ) + 1,
        day == month_length(year, month) && month < 12 ==> day_number(year, month + 1, 1)
            == day_number(year, month, day) + 1,
        day == month_length(year, month) && month == 12 ==> day_number(year + 1, 1, 1)
            == day_number(year, month, day) + 1,
{
    years_follow_each_other(year);
    reveal_with_fuel(days_before_month, 2);
    assert(days_before_month(year, 1) == 0);
    assert(days_before_month(year + 1, 1) == 0);
    assert(days_before_month(year, month + 1) == days_before_month(year, month) + month_length(
        year,
        month,
    ));
}

/// Every seventh day is a Sunday, and the first of January 1970 was a Thursday.
pub proof fn sundays_come_every_week(day: int, later: int)
    requires
        day < later < day + 7,
    ensures
        is_sunday(day) <==> is_sunday(day + 7),
        is_sunday(day) ==> !is_sunday(later),
        is_sunday(day) || is_sunday(day + 1) || is_sunday(day + 2) || is_sunday(day + 3)
            || is_sunday(day + 4) || is_sunday(day + 5) || is_sunday(day + 6),
        is_sunday(day_number(1970, 1, 4)),
{
    reveal_with_fuel(days_before_month, 2);
}

/// The Sunday among the seven days up to `end`.
proof fn sunday_of_the_last_week(day: int, end: int)
    requires
        is_sunday(day),
        day <= end < day + 7,
    ensures
        end - (end + 4) % 7 == day,
{
}

/// Summer time in Europe: from one o'clock UTC on the Sunday among the last seven days of March
/// to one o'clock UTC on the Sunday among the last seven days of October.
pub proof fn summer_time_has_its_days(year: int, utc: int, march: int, october: int)
    requires
        25 <= march <= 31,
        25 <= october <= 31,
        is_sunday(day_number(year, 3, march)),
        is_sunday(day_number(year, 10, october)),
        86_400 * day_number(year, 1, 1) <= utc < 86_400 * day_number(year + 1, 1, 1),
    ensures
        in_summer(utc) <==> 86_400 * day_number(year, 3, march) + 3_600 <= utc < 86_400
            * day_number(year, 10, october) + 3_600,
{
    assert(days_before_month(year, 1) == 0);
    assert(days_before_month(year + 1, 1) == 0);
    summer_of_its_year(year, utc);
    sunday_of_the_last_week(day_number(year, 3, march), month_end(year, 3));
    sunday_of_the_last_week(day_number(year, 10, october), month_end(year, 10));
}

/// Local time is UTC and the offset, and an hour more in summer where that rule is chosen.
pub proof fn local_time_is_offset(unix_seconds: u64, offset: int)
    requires
        unix_seconds < 0x8000_0000_0000_0000,
    ensures
        local_time(unix_seconds, offset, DstRule::Off) - unix_seconds == 60 * offset,
        local_time(unix_seconds, offset, DstRule::Eu) - unix_seconds == 60 * offset + if in_summer(
            unix_seconds as int,
        ) {
            3_600int
        } else {
            0int
        },
{
}

/// A number of seconds, taken apart.
proof fn seconds_split(day: int, hour: int, minute: int, second: int)
    requires
        0 <= hour < 24,
        0 <= minute < 60,
        0 <= second < 60,
    ensures
        ({
            let total = day * 86_400 + hour * 3_600 + minute * 60 + second;
            &&& total / 86_400 == day
            &&& total % 86_400 / 3_600 == hour
            &&& total % 3_600 / 60 == minute
            &&& total % 60 == second
        }),
{
    let total = day * 86_400 + hour * 3_600 + minute * 60 + second;
    let of_day = hour * 3_600 + minute * 60 + second;
    let of_hour = minute * 60 + second;
    assert(total == day * 86_400 + of_day);
    assert(total % 86_400 == of_day);
    let hours = day * 24 + hour;
    assert(total == hours * 3_600 + of_hour);
    assert(total % 3_600 == of_hour);
    let minutes = hours * 60 + minute;
    assert(total == minutes * 60 + second);
}

/// The fields of a second: its day, and the hours, minutes and seconds of that day.
pub proof fn seconds_have_their_fields(time: DateTime)
    requires
        time.is_valid(),
    ensures
        calendar(time.seconds()) == time,
        time.seconds() / 86_400 == day_number(time.year as int, time.month as int, time.day as int),
        time.seconds() % 86_400 / 3_600 == time.hour,
        time.seconds() % 3_600 / 60 == time.minute,
        time.seconds() % 60 == time.second,
{
    date_time_is_unique(time, calendar(time.seconds()));
    seconds_split(
        day_number(time.year as int, time.month as int, time.day as int),
        time.hour as int,
        time.minute as int,
        time.second as int,
    );
}

/// Whole seconds are counted by the microsecond, over the end of the timer too.
pub proof fn elapsed_time_is_counted(since: u64, seconds: int, micros: int)
    requires
        0 <= seconds,
        0 <= micros < 1_000_000,
        1_000_000 * seconds + micros <= u64::MAX,
    ensures
        since + 1_000_000 * seconds + micros <= u64::MAX ==> elapsed_seconds(
            since,
            (since + 1_000_000 * seconds + micros) as u64,
        ) == seconds,
        since + 1_000_000 * seconds + micros > u64::MAX ==> elapsed_seconds(
            since,
            (since + 1_000_000 * seconds + micros - 0x1_0000_0000_0000_0000) as u64,
        ) == seconds,
{
}

/// A moment has come from then on, for half the range of the timer, and not before.
pub proof fn moments_come(moment: u64, micros: u64)
    requires
        micros < 0x8000_0000_0000_0000,
    ensures
        has_come(moment, moment),
        moment + micros <= u64::MAX ==> has_come((moment + micros) as u64, moment),
        micros > 0 && moment >= micros ==> !has_come((moment - micros) as u64, moment),
        moment + micros > u64::MAX ==> has_come(
            (moment + micros - 0x1_0000_0000_0000_0000) as u64,
            moment,
        ),
{
}

} // verus!
