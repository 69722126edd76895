//! Parsed orbital elements and the orbital-period regime classification.
//!
//! An element set carries its quantities as exact fixed-point integers, so
//! every value a two-line element set can express is represented without
//! rounding: angles in 1e-7 degrees, eccentricity in 1e-7 units, mean motion
//! in 1e-8 revolutions per day, the epoch as a full year plus a day-of-year
//! in 1e-8 days.

use vstd::prelude::*;

verus! {

/// Orbital elements parsed from a two-line element set.
///
/// Field suffixes give the fixed-point scale: `_e7` is 1e-7 of the named
/// unit, `_e8` is 1e-8, `_e5` is 1e-5.
#[derive(Debug, Clone)]
pub struct OrbitalElements {
    /// Satellite name supplied beside the two lines.
    pub name: String,
    /// NORAD catalog number.
    pub catalog_number: u64,
    /// Epoch year, four digits.
    pub epoch_year: u64,
    /// Epoch day of year (1-based), in 1e-8 days.
    pub epoch_day_e8: u64,
    /// First time derivative of mean motion field, in 1e-8 rev/day (signed).
    pub mean_motion_dot_e8: i64,
    /// Second derivative field mantissa, in 1e-5 units (signed).
    pub mean_motion_ddot_mant_e5: i64,
    /// Second derivative field power-of-ten exponent (signed).
    pub mean_motion_ddot_exp: i64,
    /// Drag term mantissa, in 1e-5 units (signed).
    pub bstar_mant_e5: i64,
    /// Drag term power-of-ten exponent (signed).
    pub bstar_exp: i64,
    /// Element set number.
    pub element_set_number: u64,
    /// Inclination, in 1e-7 degrees.
    pub inclination_e7: i64,
    /// Right ascension of the ascending node, in 1e-7 degrees.
    pub raan_e7: i64,
    /// Eccentricity, in 1e-7 units; the whole field is the fractional part.
    pub eccentricity_e7: u64,
    /// Argument of perigee, in 1e-7 degrees.
    pub arg_perigee_e7: i64,
    /// Mean anomaly, in 1e-7 degrees.
    pub mean_anomaly_e7: i64,
    /// Mean motion, in 1e-8 revolutions per day.
    pub mean_motion_e8: u64,
    /// Revolution number at epoch.
    pub rev_number: u64,
}

impl OrbitalElements {
    /// The element-set invariant: eccentricity in [0, 1), inclination in
    /// [0, 180] degrees, mean motion positive and below the two-integer-digit
    /// ceiling of its text field.
    pub open spec fn valid(self) -> bool {
        &&& 0 <= self.eccentricity_e7 < 10_000_000
        &&& 0 <= self.inclination_e7 <= 1_800_000_000
        &&& 0 < self.mean_motion_e8 < 10_000_000_000
    }
}

/// Orbital-period classification deciding which perturbation algorithm a
/// propagator applies.
#[derive(PartialEq, Eq, Structural, Clone, Copy, Debug)]
pub enum OrbitRegime {
    /// Orbital period under 225 minutes.
    NearEarth,
    /// Orbital period of 225 minutes or more.
    DeepSpace,
}

/// The regime is a pure function of mean motion: a period of at least
/// 225 minutes means 1440/mm >= 225 rev/day, that is 225 * mm <= 1440
/// scaled to 1e-8 rev/day units.
pub open spec fn regime_of(mean_motion_e8: u64) -> OrbitRegime {
    if 225 * mean_motion_e8 <= 144_000_000_000 {
        OrbitRegime::DeepSpace
    } else {
        OrbitRegime::NearEarth
    }
}

/// Orbital period in milliminutes: 1440 minutes per day over the mean
/// motion, scaled by 1e3 and by the 1e-8 units of the argument.
pub open spec fn period_e3_of(mean_motion_e8: u64) -> int {
    144_000_000_000_000int / (mean_motion_e8 as int)
}

/// Classifies an element set by its orbital period.
pub fn classify(mean_motion_e8: u64) -> (r: OrbitRegime)
    requires
        mean_motion_e8 > 0,
    ensures
        r == regime_of(mean_motion_e8),
{
    if mean_motion_e8 <= 640_000_000 {
        OrbitRegime::DeepSpace
    } else {
        OrbitRegime::NearEarth
    }
}

/// Orbital period in milliminutes from the mean motion.
pub fn orbital_period_e3(mean_motion_e8: u64) -> (r: u64)
    requires
        0 < mean_motion_e8 < 10_000_000_000,
    ensures
        r == period_e3_of(mean_motion_e8),
        r > 0,
{
    proof {
        vstd::arithmetic::div_mod::lemma_div_is_ordered_by_denominator(
            144_000_000_000_000int, mean_motion_e8 as int, 10_000_000_000,
        );
        assert(144_000_000_000_000int / 10_000_000_000int == 14400);
    }
    144_000_000_000_000u64 / mean_motion_e8
}

/// For every valid element set the orbital period is positive, and the
/// regime classification is exactly the 225-minute threshold on that
/// period: deep space if and only if the period reaches 225 minutes.
pub proof fn lemma_regime_pure(e: OrbitalElements)
    requires
        e.valid(),
    ensures
        period_e3_of(e.mean_motion_e8) > 0,
        regime_of(e.mean_motion_e8) is DeepSpace <==> period_e3_of(e.mean_motion_e8) >= 225_000,
{
    let mm = e.mean_motion_e8 as int;
    assert(period_e3_of(e.mean_motion_e8) > 0) by {
        vstd::arithmetic::div_mod::lemma_div_is_ordered_by_denominator(
            144_000_000_000_000int, mm, 10_000_000_000,
        );
        assert(144_000_000_000_000int / 10_000_000_000int == 14400);
    }
    assert(225 * mm <= 144_000_000_000 <==> 144_000_000_000_000int / mm >= 225_000) by {
        if 225 * mm <= 144_000_000_000 {
            assert(225_000 * mm <= 144_000_000_000_000int);
            vstd::arithmetic::div_mod::lemma_div_multiples_vanish(225_000, mm);
            vstd::arithmetic::div_mod::lemma_div_is_ordered(225_000 * mm, 144_000_000_000_000int, mm);
        }
        if 144_000_000_000_000int / mm >= 225_000 {
            vstd::arithmetic::div_mod::lemma_fundamental_div_mod(144_000_000_000_000int, mm);
            vstd::arithmetic::div_mod::lemma_mod_bound(144_000_000_000_000int, mm);
            assert(144_000_000_000_000int >= 225_000 * mm) by (nonlinear_arith)
                requires
                    144_000_000_000_000int == mm * (144_000_000_000_000int / mm)
                        + 144_000_000_000_000int % mm,
                    144_000_000_000_000int % mm >= 0,
                    144_000_000_000_000int / mm >= 225_000,
                    mm > 0,
            ;
            assert(225 * mm <= 144_000_000_000) by (nonlinear_arith)
                requires 225_000 * mm <= 144_000_000_000_000int;
        }
    }
}

} // verus!
