//! Calendar arithmetic tying an element set's epoch to the Unix time line.
//!
//! The epoch of an element set is a year plus a 1-based day of year with a
//! decimal fraction. One 1e-8 day is exactly 864 microseconds, so the epoch
//! instant and any offset in milliminutes (one milliminute is exactly
//! 60 000 microseconds) are exact in integer microseconds.

use vstd::prelude::*;

use crate::elements::OrbitalElements;

verus! {

/// Gregorian leap-year rule.
pub open spec fn is_leap_year(y: int) -> bool {
    (y % 4 == 0 && y % 100 != 0) || y % 400 == 0
}

/// Number of Gregorian leap years in years one through `y`.
pub open spec fn leap_count(y: int) -> int {
    y / 4 - y / 100 + y / 400
}

/// Days from 1970 January 1 to January 1 of year `y`.
pub open spec fn days_to_year(y: int) -> int {
    365 * (y - 1970) + leap_count(y - 1) - leap_count(1969)
}

/// Unix microseconds of an epoch given as a year and a 1-based day of year
/// in 1e-8 days.
pub open spec fn epoch_unix_us_of(year: int, day_e8: int) -> int {
    days_to_year(year) * 86_400_000_000 + (day_e8 - 100_000_000) * 864
}

/// Days from 1970 January 1 to January 1 of the given year.
pub fn days_to_year_exec(year: u64) -> (r: i64)
    requires
        1901 <= year <= 2099,
    ensures
        r == days_to_year(year as int),
        -25_600 <= r <= 47_500,
{
    let y = (year - 1) as i64;
    let leaps = y / 4 - y / 100 + y / 400;
    proof {
        assert(1969int / 4 == 492 && 1969int / 100 == 19 && 1969int / 400 == 4);
    }
    365 * (year as i64 - 1970) + leaps - 477
}

/// Unix microseconds of the element set's epoch instant.
pub fn epoch_unix_us(e: &OrbitalElements) -> (r: i64)
    requires
        1901 <= e.epoch_year <= 2099,
        e.epoch_day_e8 < 100_000_000_000,
    ensures
        r == epoch_unix_us_of(e.epoch_year as int, e.epoch_day_e8 as int),
{
    let days = days_to_year_exec(e.epoch_year);
    days * 86_400_000_000 + (e.epoch_day_e8 as i64 - 100_000_000) * 864
}

/// Whole milliminutes from the epoch instant to the given instant, rounded
/// toward minus infinity; both instants in Unix microseconds.
pub fn minutes_since_epoch_e3(epoch_us: i64, instant_us: i64) -> (r: i64)
    requires
        -4_000_000_000_000_000 <= epoch_us <= 4_000_000_000_000_000,
        -4_000_000_000_000_000 <= instant_us <= 4_000_000_000_000_000,
    ensures
        r == (instant_us - epoch_us) / 60_000,
{
    if instant_us >= epoch_us {
        let d = instant_us - epoch_us;
        d / 60_000
    } else {
        let d = epoch_us - instant_us;
        let q = (d + 59_999) / 60_000;
        proof {
            let x = instant_us - epoch_us;
            vstd::arithmetic::div_mod::lemma_fundamental_div_mod(d as int, 60_000);
            vstd::arithmetic::div_mod::lemma_mod_bound(d as int, 60_000);
            let a = d as int / 60_000;
            let b = d as int % 60_000;
            if b == 0 {
                vstd::arithmetic::div_mod::lemma_fundamental_div_mod_converse(
                    d + 59_999, 60_000, a, 59_999);
                vstd::arithmetic::div_mod::lemma_fundamental_div_mod_converse(
                    x, 60_000, -a, 0);
            } else {
                vstd::arithmetic::div_mod::lemma_fundamental_div_mod_converse(
                    d + 59_999, 60_000, a + 1, b - 1);
                vstd::arithmetic::div_mod::lemma_fundamental_div_mod_converse(
                    x, 60_000, -a - 1, 60_000 - b);
            }
        }
        -q
    }
}

/// Unix microseconds of an instant given as milliminutes from the epoch.
pub fn offset_unix_us(epoch_us: i64, t_e3: i64) -> (r: i64)
    requires
        -4_000_000_000_000_000 <= epoch_us <= 4_000_000_000_000_000,
        -60_000_000_000 <= t_e3 <= 60_000_000_000,
    ensures
        r == epoch_us + t_e3 * 60_000,
{
    epoch_us + t_e3 * 60_000
}

} // verus!
