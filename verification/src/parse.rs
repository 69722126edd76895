//! Line-level parsing of a two-line element set.
//!
//! A line is checked in a fixed order: length, line number, checksum, then
//! each numeric field left to right; the first check that fails names the
//! offending line and field. The specification functions below state that
//! order exactly, and `parse_elements` is proved to accept precisely the
//! well-formed sets and to return every field's exact fixed-point value.

use vstd::prelude::*;

use crate::elements::OrbitalElements;
use crate::fields::all_digits;
use crate::fields::check_line_checksum;
use crate::fields::decimal_ok;
use crate::fields::decimal_val;
use crate::fields::digits_val;
use crate::fields::exp_field_exp;
use crate::fields::exp_field_mant_e5;
use crate::fields::exp_field_ok;
use crate::fields::is_digit;
use crate::fields::lemma_checksum_detects_corruption;
use crate::fields::lemma_pow10_values;
use crate::fields::line_checksum_ok;
use crate::fields::padded_digits_ok;
use crate::fields::padded_digits_val;
use crate::fields::parse_decimal;
use crate::fields::parse_digits;
use crate::fields::parse_exp_field;
use crate::fields::parse_padded_digits;
use crate::fields::parse_signed_frac;
use crate::fields::signed_frac_ok;
use crate::fields::signed_frac_val_e8;

verus! {

/// The field of an element-set line that failed to parse or to validate.
#[derive(PartialEq, Eq, Structural, Clone, Copy, Debug)]
pub enum Field {
    /// The line is not 69 bytes long.
    LineLength,
    /// The first byte is not the expected line number.
    LineNumber,
    /// The checksum byte does not match the line's content.
    Checksum,
    /// Catalog number field, or a catalog number differing between lines.
    CatalogNumber,
    /// Two-digit epoch year.
    EpochYear,
    /// Epoch day of year.
    EpochDay,
    /// First derivative of mean motion.
    MeanMotionDot,
    /// Second derivative of mean motion.
    MeanMotionDotDot,
    /// Drag term.
    BStar,
    /// Element set number.
    ElementSetNumber,
    /// Inclination, malformed or beyond 180 degrees.
    Inclination,
    /// Right ascension of the ascending node.
    Raan,
    /// Eccentricity.
    Eccentricity,
    /// Argument of perigee.
    ArgPerigee,
    /// Mean anomaly.
    MeanAnomaly,
    /// Mean motion, malformed or zero.
    MeanMotion,
    /// Revolution number at epoch.
    RevNumber,
}

/// Parse-time rejection of an element set, citing the offending line and
/// field.
#[derive(PartialEq, Eq, Structural, Clone, Copy, Debug)]
pub struct MalformedElementSet {
    /// Offending line, 1 or 2.
    pub line: u8,
    /// Offending field.
    pub field: Field,
}

/// First failing check of the first line, in check order.
pub open spec fn line1_error(s: Seq<u8>) -> Option<Field> {
    if s.len() != 69 {
        Some(Field::LineLength)
    } else if s[0] != 49 {
        Some(Field::LineNumber)
    } else if !line_checksum_ok(s) {
        Some(Field::Checksum)
    } else if !padded_digits_ok(s.subrange(2, 7)) {
        Some(Field::CatalogNumber)
    } else if !all_digits(s.subrange(18, 20)) {
        Some(Field::EpochYear)
    } else if !decimal_ok(s.subrange(20, 32), 8) {
        Some(Field::EpochDay)
    } else if !signed_frac_ok(s.subrange(33, 43)) {
        Some(Field::MeanMotionDot)
    } else if !exp_field_ok(s.subrange(44, 52)) {
        Some(Field::MeanMotionDotDot)
    } else if !exp_field_ok(s.subrange(53, 61)) {
        Some(Field::BStar)
    } else if !padded_digits_ok(s.subrange(64, 68)) {
        Some(Field::ElementSetNumber)
    } else {
        None
    }
}

/// First failing check of the second line, in check order. Inclination
/// beyond 180 degrees and a zero mean motion are rejected here, so that a
/// parsed element set always satisfies its invariant.
pub open spec fn line2_error(s: Seq<u8>) -> Option<Field> {
    if s.len() != 69 {
        Some(Field::LineLength)
    } else if s[0] != 50 {
        Some(Field::LineNumber)
    } else if !line_checksum_ok(s) {
        Some(Field::Checksum)
    } else if !(decimal_ok(s.subrange(8, 16), 4) && decimal_val(s.subrange(8, 16), 4)
        <= 1_800_000) {
        Some(Field::Inclination)
    } else if !decimal_ok(s.subrange(17, 25), 4) {
        Some(Field::Raan)
    } else if !all_digits(s.subrange(26, 33)) {
        Some(Field::Eccentricity)
    } else if !decimal_ok(s.subrange(34, 42), 4) {
        Some(Field::ArgPerigee)
    } else if !decimal_ok(s.subrange(43, 51), 4) {
        Some(Field::MeanAnomaly)
    } else if !(decimal_ok(s.subrange(52, 63), 8) && decimal_val(s.subrange(52, 63), 8) > 0) {
        Some(Field::MeanMotion)
    } else if !padded_digits_ok(s.subrange(63, 68)) {
        Some(Field::RevNumber)
    } else if !padded_digits_ok(s.subrange(2, 7)) {
        Some(Field::CatalogNumber)
    } else {
        None
    }
}

/// First failing check of a whole element set: the first line, then the
/// second, then agreement of the two catalog numbers.
pub open spec fn elements_error(l1: Seq<u8>, l2: Seq<u8>) -> Option<MalformedElementSet> {
    if line1_error(l1) is Some {
        Some(MalformedElementSet { line: 1, field: line1_error(l1)->0 })
    } else if line2_error(l2) is Some {
        Some(MalformedElementSet { line: 2, field: line2_error(l2)->0 })
    } else if padded_digits_val(l1.subrange(2, 7)) != padded_digits_val(l2.subrange(2, 7)) {
        Some(MalformedElementSet { line: 2, field: Field::CatalogNumber })
    } else {
        None
    }
}

/// Corrupting a single digit in the data portion of the first line of an
/// element set that parses makes the set fail to parse: the corrupted line
/// is rejected at its checksum, or at its line number if the corruption hit
/// that byte.
pub proof fn lemma_line1_corruption_detected(l1: Seq<u8>, c1: Seq<u8>, l2: Seq<u8>, i: int)
    requires
        elements_error(l1, l2) is None,
        c1.len() == 69,
        0 <= i < 68,
        is_digit(l1[i]),
        is_digit(c1[i]),
        l1[i] != c1[i],
        forall|j: int| 0 <= j < 69 && j != i ==> l1[j] == c1[j],
    ensures
        elements_error(c1, l2) is Some,
{
    lemma_checksum_detects_corruption(l1, c1, i);
    if c1[0] == 49 {
        assert(line1_error(c1) == Some(Field::Checksum));
    } else {
        assert(line1_error(c1) == Some(Field::LineNumber));
    }
}

/// Corrupting a single digit in the data portion of the second line of an
/// element set that parses makes the set fail to parse, in the same way.
pub proof fn lemma_line2_corruption_detected(l1: Seq<u8>, l2: Seq<u8>, c2: Seq<u8>, i: int)
    requires
        elements_error(l1, l2) is None,
        c2.len() == 69,
        0 <= i < 68,
        is_digit(l2[i]),
        is_digit(c2[i]),
        l2[i] != c2[i],
        forall|j: int| 0 <= j < 69 && j != i ==> l2[j] == c2[j],
    ensures
        elements_error(l1, c2) is Some,
{
    lemma_checksum_detects_corruption(l2, c2, i);
    if c2[0] == 50 {
        assert(line2_error(c2) == Some(Field::Checksum));
    } else {
        assert(line2_error(c2) == Some(Field::LineNumber));
    }
}

/// Full year denoted by a two-digit element-set year: values below 57 fall
/// in the 2000s, the rest in the 1900s.
pub open spec fn full_year_of(yy: int) -> int {
    if yy < 57 {
        2000 + yy
    } else {
        1900 + yy
    }
}

/// Parses a named two-line element set into orbital elements.
///
/// Accepts exactly the sets on which no check of `elements_error` fails;
/// on rejection returns that first failure. On success every field of the
/// result equals the exact fixed-point value its text denotes, and the
/// element-set invariant holds.
pub fn parse_elements(name: String, line1: &[u8], line2: &[u8]) -> (r: Result<
    OrbitalElements,
    MalformedElementSet,
>)
    ensures
        r is Ok <==> elements_error(line1@, line2@) is None,
        r is Err ==> Some(r->Err_0) == elements_error(line1@, line2@),
        r is Ok ==> {
            let e = r->Ok_0;
            &&& e.name == name
            &&& e.catalog_number == padded_digits_val(line1@.subrange(2, 7))
            &&& e.epoch_year == full_year_of(digits_val(line1@.subrange(18, 20)))
            &&& e.epoch_day_e8 == decimal_val(line1@.subrange(20, 32), 8)
            &&& e.mean_motion_dot_e8 == signed_frac_val_e8(line1@.subrange(33, 43))
            &&& e.mean_motion_ddot_mant_e5 == exp_field_mant_e5(line1@.subrange(44, 52))
            &&& e.mean_motion_ddot_exp == exp_field_exp(line1@.subrange(44, 52))
            &&& e.bstar_mant_e5 == exp_field_mant_e5(line1@.subrange(53, 61))
            &&& e.bstar_exp == exp_field_exp(line1@.subrange(53, 61))
            &&& e.element_set_number == padded_digits_val(line1@.subrange(64, 68))
            &&& e.inclination_e7 == decimal_val(line2@.subrange(8, 16), 4) * 1000
            &&& e.raan_e7 == decimal_val(line2@.subrange(17, 25), 4) * 1000
            &&& e.eccentricity_e7 == digits_val(line2@.subrange(26, 33))
            &&& e.arg_perigee_e7 == decimal_val(line2@.subrange(34, 42), 4) * 1000
            &&& e.mean_anomaly_e7 == decimal_val(line2@.subrange(43, 51), 4) * 1000
            &&& e.mean_motion_e8 == decimal_val(line2@.subrange(52, 63), 8)
            &&& e.rev_number == padded_digits_val(line2@.subrange(63, 68))
            &&& e.valid()
            &&& 1957 <= e.epoch_year <= 2056
            &&& e.epoch_day_e8 < 100_000_000_000
        },
{
    proof {
        lemma_pow10_values();
    }
    // Line 1: length, line number, checksum.
    if line1.len() != 69 {
        return Err(MalformedElementSet { line: 1, field: Field::LineLength });
    }
    if line1[0] != 49 {
        return Err(MalformedElementSet { line: 1, field: Field::LineNumber });
    }
    if !check_line_checksum(line1) {
        return Err(MalformedElementSet { line: 1, field: Field::Checksum });
    }
    // Line 1: numeric fields.
    let catalog1 = match parse_padded_digits(line1, 2, 7) {
        Ok(v) => v,
        Err(()) => {
            return Err(MalformedElementSet { line: 1, field: Field::CatalogNumber });
        },
    };
    let epoch_yy = match parse_digits(line1, 18, 20) {
        Ok(v) => v,
        Err(()) => {
            return Err(MalformedElementSet { line: 1, field: Field::EpochYear });
        },
    };
    let epoch_day_e8 = match parse_decimal(line1, 20, 32, 8) {
        Ok(v) => v,
        Err(()) => {
            return Err(MalformedElementSet { line: 1, field: Field::EpochDay });
        },
    };
    let mean_motion_dot_e8 = match parse_signed_frac(line1, 33) {
        Ok(v) => v,
        Err(()) => {
            return Err(MalformedElementSet { line: 1, field: Field::MeanMotionDot });
        },
    };
    let (ddot_mant, ddot_exp) = match parse_exp_field(line1, 44) {
        Ok(v) => v,
        Err(()) => {
            return Err(MalformedElementSet { line: 1, field: Field::MeanMotionDotDot });
        },
    };
    let (bstar_mant, bstar_exp) = match parse_exp_field(line1, 53) {
        Ok(v) => v,
        Err(()) => {
            return Err(MalformedElementSet { line: 1, field: Field::BStar });
        },
    };
    let element_set_number = match parse_padded_digits(line1, 64, 68) {
        Ok(v) => v,
        Err(()) => {
            return Err(MalformedElementSet { line: 1, field: Field::ElementSetNumber });
        },
    };
    // Line 2: length, line number, checksum.
    if line2.len() != 69 {
        return Err(MalformedElementSet { line: 2, field: Field::LineLength });
    }
    if line2[0] != 50 {
        return Err(MalformedElementSet { line: 2, field: Field::LineNumber });
    }
    if !check_line_checksum(line2) {
        return Err(MalformedElementSet { line: 2, field: Field::Checksum });
    }
    // Line 2: numeric fields, with the two validity checks.
    let inclination_e4 = match parse_decimal(line2, 8, 16, 4) {
        Ok(v) => v,
        Err(()) => {
            return Err(MalformedElementSet { line: 2, field: Field::Inclination });
        },
    };
    if inclination_e4 > 1_800_000 {
        return Err(MalformedElementSet { line: 2, field: Field::Inclination });
    }
    let raan_e4 = match parse_decimal(line2, 17, 25, 4) {
        Ok(v) => v,
        Err(()) => {
            return Err(MalformedElementSet { line: 2, field: Field::Raan });
        },
    };
    let eccentricity_e7 = match parse_digits(line2, 26, 33) {
        Ok(v) => v,
        Err(()) => {
            return Err(MalformedElementSet { line: 2, field: Field::Eccentricity });
        },
    };
    let arg_perigee_e4 = match parse_decimal(line2, 34, 42, 4) {
        Ok(v) => v,
        Err(()) => {
            return Err(MalformedElementSet { line: 2, field: Field::ArgPerigee });
        },
    };
    let mean_anomaly_e4 = match parse_decimal(line2, 43, 51, 4) {
        Ok(v) => v,
        Err(()) => {
            return Err(MalformedElementSet { line: 2, field: Field::MeanAnomaly });
        },
    };
    let mean_motion_e8 = match parse_decimal(line2, 52, 63, 8) {
        Ok(v) => v,
        Err(()) => {
            return Err(MalformedElementSet { line: 2, field: Field::MeanMotion });
        },
    };
    if mean_motion_e8 == 0 {
        return Err(MalformedElementSet { line: 2, field: Field::MeanMotion });
    }
    let rev_number = match parse_padded_digits(line2, 63, 68) {
        Ok(v) => v,
        Err(()) => {
            return Err(MalformedElementSet { line: 2, field: Field::RevNumber });
        },
    };
    let catalog2 = match parse_padded_digits(line2, 2, 7) {
        Ok(v) => v,
        Err(()) => {
            return Err(MalformedElementSet { line: 2, field: Field::CatalogNumber });
        },
    };
    if catalog1 != catalog2 {
        return Err(MalformedElementSet { line: 2, field: Field::CatalogNumber });
    }
    let epoch_year: u64 = if epoch_yy < 57 {
        2000 + epoch_yy
    } else {
        1900 + epoch_yy
    };
    Ok(
        OrbitalElements {
            name,
            catalog_number: catalog1,
            epoch_year,
            epoch_day_e8,
            mean_motion_dot_e8,
            mean_motion_ddot_mant_e5: ddot_mant,
            mean_motion_ddot_exp: ddot_exp,
            bstar_mant_e5: bstar_mant,
            bstar_exp: bstar_exp,
            element_set_number,
            inclination_e7: (inclination_e4 as i64) * 1000,
            raan_e7: (raan_e4 as i64) * 1000,
            eccentricity_e7,
            arg_perigee_e7: (arg_perigee_e4 as i64) * 1000,
            mean_anomaly_e7: (mean_anomaly_e4 as i64) * 1000,
            mean_motion_e8,
            rev_number,
        },
    )
}

} // verus!
