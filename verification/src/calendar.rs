//! Epoch seconds as UTC calendar fields, and how pages write them.

use vstd::arithmetic::div_mod::{
    lemma_fundamental_div_mod, lemma_fundamental_div_mod_converse, lemma_mod_bound,
};
use vstd::prelude::*;

verus! {

/// A UTC date and time.
#[derive(Clone, Copy, Debug, PartialEq, Eq, Structural)]
pub struct UtcFields {
    pub year: i32,
    pub month: u8,
    pub day: u8,
    pub hour: u8,
    pub minute: u8,
    pub second: u8,
}

/// The first second of the year -9999.
pub const MIN_TIMESTAMP: i64 = -377705116800;

/// The last second of the year 9999.
pub const MAX_TIMESTAMP: i64 = 253402300799;

/// Whether a year of the proleptic Gregorian calendar is a leap year.
pub open spec fn leap_year(year: int) -> bool {
    year % 4 == 0 && (year % 100 != 0 || year % 400 == 0)
}

/// How many leap years there are from year 1 up to the year.
pub open spec fn leap_years_through(year: int) -> int {
    year / 4 - year / 100 + year / 400
}

/// The days from 1970-01-01 to the first day of the year.
pub open spec fn days_before_year(year: int) -> int {
    365 * (year - 1970) + leap_years_through(year - 1) - leap_years_through(1969)
}

/// The days of a month.
pub open spec fn days_in_month(year: int, month: int) -> int {
    if month == 2 {
        if leap_year(year) {
            29
        } else {
            28
        }
    } else if month == 4 || month == 6 || month == 9 || month == 11 {
        30
    } else {
        31
    }
}

/// The days of the year before a month.
pub open spec fn days_before_month(year: int, month: int) -> int
    decreases month,
{
    if month <= 1 {
        0
    } else {
        days_before_month(year, month - 1) + days_in_month(year, month - 1)
    }
}

/// The days from 1970-01-01 to a date.
pub open spec fn day_number(year: int, month: int, day: int) -> int {
    days_before_year(year) + days_before_month(year, month) + day - 1
}

/// Whether the fields are the UTC date and time of the epoch second.
pub open spec fn is_utc(f: UtcFields, secs: int) -> bool {
    &&& 1 <= f.month <= 12
    &&& 1 <= f.day <= days_in_month(f.year as int, f.month as int)
    &&& day_number(f.year as int, f.month as int, f.day as int) == secs / 86400
    &&& f.hour == (secs % 86400) / 3600
    &&& f.minute == (secs % 3600) / 60
    &&& f.second == secs % 60
}

/// The UTC date and time of an epoch second, within the years -9999 to 9999.
pub open spec fn utc_of(secs: i64) -> Option<UtcFields> {
    if MIN_TIMESTAMP <= secs <= MAX_TIMESTAMP {
        Some(choose|f: UtcFields| is_utc(f, secs as int))
    } else {
        None
    }
}

/// `time::OffsetDateTime::from_unix_timestamp` succeeds exactly for the seconds of the years -9999
/// to 9999; its year, month, day, hour, minute and second are those of the proleptic Gregorian
/// calendar in UTC.
#[verifier::external_body]
fn from_unix_timestamp(secs: i64) -> (r: Option<UtcFields>)
    ensures
        match r {
            Some(f) => MIN_TIMESTAMP <= secs <= MAX_TIMESTAMP && is_utc(f, secs as int),
            None => secs < MIN_TIMESTAMP || secs > MAX_TIMESTAMP,
        },
{
    match time::OffsetDateTime::from_unix_timestamp(secs) {
        Ok(dt) => Some(
            UtcFields {
                year: dt.year(),
                month: dt.month() as u8,
                day: dt.day(),
                hour: dt.hour(),
                minute: dt.minute(),
                second: dt.second(),
            },
        ),
        Err(_) => None,
    }
}

/// A quotient grows by one exactly at the multiples of the divisor.
proof fn lemma_quotient_step(n: int)
    ensures
        n / 4 - (n - 1) / 4 == if n % 4 == 0 {
            1int
        } else {
            0
        },
        n / 100 - (n - 1) / 100 == if n % 100 == 0 {
            1int
        } else {
            0
        },
        n / 400 - (n - 1) / 400 == if n % 400 == 0 {
            1int
        } else {
            0
        },
{
    lemma_quotient_step_by(n, 4);
    lemma_quotient_step_by(n, 100);
    lemma_quotient_step_by(n, 400);
}

proof fn lemma_quotient_step_by(n: int, d: int)
    requires
        d > 1,
    ensures
        n / d - (n - 1) / d == if n % d == 0 {
            1int
        } else {
            0
        },
{
    let q = n / d;
    let r = n % d;
    lemma_fundamental_div_mod(n, d);
    lemma_mod_bound(n, d);
    if r == 0 {
        assert((q - 1) * d == d * q - d) by (nonlinear_arith);
        lemma_fundamental_div_mod_converse(n - 1, d, q - 1, d - 1);
    } else {
        assert(q * d == d * q) by (nonlinear_arith);
        lemma_fundamental_div_mod_converse(n - 1, d, q, r - 1);
    }
}

/// A multiple of 400 is one of 100, and a multiple of 100 is one of 4.
proof fn lemma_multiples(n: int)
    ensures
        n % 400 == 0 ==> n % 100 == 0,
        n % 100 == 0 ==> n % 4 == 0,
{
}

proof fn lemma_year_step(year: int)
    ensures
        days_before_year(year + 1) == days_before_year(year) + 365 + if leap_year(year) {
            1int
        } else {
            0
        },
{
    lemma_quotient_step(year);
    lemma_multiples(year);
    assert(leap_years_through(year) - leap_years_through(year - 1) == if leap_year(year) {
        1int
    } else {
        0
    });
}

proof fn lemma_year_monotone(a: int, b: int)
    requires
        a <= b,
    ensures
        days_before_year(a) <= days_before_year(b),
    decreases b - a,
{
    if a < b {
        lemma_year_monotone(a, b - 1);
        lemma_year_step(b - 1);
    }
}

proof fn lemma_month_monotone(year: int, a: int, b: int)
    requires
        1 <= a <= b <= 12,
    ensures
        days_before_month(year, a) <= days_before_month(year, b),
    decreases b - a,
{
    if a < b {
        lemma_month_monotone(year, a, b - 1);
    }
}

proof fn lemma_year_length(year: int)
    ensures
        days_before_month(year, 12) + 31 == 365 + if leap_year(year) {
            1int
        } else {
            0
        },
{
    reveal_with_fuel(days_before_month, 13);
}

/// A date lies inside its year.
proof fn lemma_inside_year(year: int, month: int, day: int)
    requires
        1 <= month <= 12,
        1 <= day <= days_in_month(year, month),
    ensures
        days_before_year(year) <= day_number(year, month, day) < days_before_year(year + 1),
{
    lemma_month_monotone(year, 1, month);
    lemma_year_step(year);
    lemma_year_length(year);
    if month < 12 {
        lemma_month_monotone(year, month + 1, 12);
    }
}

/// An epoch second has one UTC date and time.
pub proof fn lemma_utc_unique(a: UtcFields, b: UtcFields, secs: int)
    requires
        is_utc(a, secs),
        is_utc(b, secs),
    ensures
        a == b,
{
    let (ya, ma, da) = (a.year as int, a.month as int, a.day as int);
    let (yb, mb, db) = (b.year as int, b.month as int, b.day as int);
    lemma_inside_year(ya, ma, da);
    lemma_inside_year(yb, mb, db);
    if ya < yb {
        lemma_year_monotone(ya + 1, yb);
    }
    if yb < ya {
        lemma_year_monotone(yb + 1, ya);
    }
    if ma < mb {
        lemma_month_monotone(ya, ma + 1, mb);
    }
    if mb < ma {
        lemma_month_monotone(ya, mb + 1, ma);
    }
}

/// The UTC date and time of an epoch second, within the years -9999 to 9999.
pub fn utc_fields(secs: i64) -> (r: Option<UtcFields>)
    ensures
        r == utc_of(secs),
        r matches Some(f) ==> is_utc(f, secs as int),
{
    let r = from_unix_timestamp(secs);
    proof {
        if let Some(f) = r {
            lemma_utc_unique(f, choose|f: UtcFields| is_utc(f, secs as int), secs as int);
        }
    }
    r
}

} // verus!
