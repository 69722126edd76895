use gpredict::elements::classify;
use gpredict::elements::orbital_period_e3;
use gpredict::elements::OrbitRegime;
use gpredict::epoch::days_to_year_exec;
use gpredict::epoch::epoch_unix_us;
use gpredict::epoch::minutes_since_epoch_e3;
use gpredict::epoch::offset_unix_us;
use gpredict::parse::parse_elements;
use gpredict::parse::Field;

const L1: &[u8] = b"1 40379U 15003D   15243.42702278  .00003367  00000-0  17130-3 0  9993";
const L2: &[u8] = b"2 40379  99.1124 290.6779 0157088   8.9691 351.4280 15.07659299 31889";

/// Rewrites the checksum byte of a 69-byte line so the line verifies.
fn with_checksum(mut v: Vec<u8>) -> Vec<u8> {
    let mut sum: u32 = 0;
    for i in 0..68 {
        let b = v[i];
        if b.is_ascii_digit() {
            sum += (b - b'0') as u32;
        } else if b == b'-' {
            sum += 1;
        }
    }
    v[68] = b'0' + (sum % 10) as u8;
    v
}

#[test]
fn grifex_lines_are_69_bytes() {
    assert_eq!(L1.len(), 69);
    assert_eq!(L2.len(), 69);
}

#[test]
fn grifex_parses_exactly() {
    let e = parse_elements("GRIFEX".to_string(), L1, L2).unwrap();
    assert_eq!(e.name, "GRIFEX");
    assert_eq!(e.catalog_number, 40379);
    assert_eq!(e.epoch_year, 2015);
    assert_eq!(e.epoch_day_e8, 24_342_702_278);
    assert_eq!(e.mean_motion_dot_e8, 3367);
    assert_eq!(e.mean_motion_ddot_mant_e5, 0);
    assert_eq!(e.mean_motion_ddot_exp, 0);
    assert_eq!(e.bstar_mant_e5, 17130);
    assert_eq!(e.bstar_exp, -3);
    assert_eq!(e.element_set_number, 999);
    assert_eq!(e.inclination_e7, 991_124_000);
    assert_eq!(e.raan_e7, 2_906_779_000);
    assert_eq!(e.eccentricity_e7, 157_088);
    assert_eq!(e.arg_perigee_e7, 89_691_000);
    assert_eq!(e.mean_anomaly_e7, 3_514_280_000);
    assert_eq!(e.mean_motion_e8, 1_507_659_299);
    assert_eq!(e.rev_number, 3188);
}

#[test]
fn grifex_is_near_earth_with_95_minute_period() {
    let e = parse_elements("GRIFEX".to_string(), L1, L2).unwrap();
    assert_eq!(classify(e.mean_motion_e8), OrbitRegime::NearEarth);
    let p = orbital_period_e3(e.mean_motion_e8);
    assert!(95_000 < p && p < 96_000);
}

#[test]
fn regime_boundary_at_225_minutes() {
    // 6.4 rev/day is exactly a 225-minute period: at the threshold the
    // orbit counts as deep space.
    assert_eq!(orbital_period_e3(640_000_000), 225_000);
    assert_eq!(classify(640_000_000), OrbitRegime::DeepSpace);
    assert_eq!(classify(640_000_001), OrbitRegime::NearEarth);
    assert_eq!(classify(1), OrbitRegime::DeepSpace);
}

#[test]
fn short_line_rejected() {
    let r = parse_elements("X".to_string(), &L1[..68], L2);
    let err = r.unwrap_err();
    assert_eq!(err.line, 1);
    assert_eq!(err.field, Field::LineLength);
}

#[test]
fn wrong_line_number_rejected() {
    let mut v = L1.to_vec();
    v[0] = b'3';
    let err = parse_elements("X".to_string(), &v, L2).unwrap_err();
    assert_eq!(err.line, 1);
    assert_eq!(err.field, Field::LineNumber);
}

#[test]
fn single_digit_corruption_rejected() {
    // Corrupt one data digit of each line, leaving the checksum byte as it
    // was: the set must be rejected at that line's checksum.
    for &(idx, digit) in &[(4usize, b'9'), (24, b'5'), (40, b'1')] {
        let mut v = L1.to_vec();
        assert!(v[idx].is_ascii_digit() && v[idx] != digit);
        v[idx] = digit;
        let err = parse_elements("X".to_string(), &v, L2).unwrap_err();
        assert_eq!(err.line, 1);
        assert_eq!(err.field, Field::Checksum);
    }
    for &(idx, digit) in &[(3usize, b'1'), (28, b'9'), (60, b'0')] {
        let mut v = L2.to_vec();
        assert!(v[idx].is_ascii_digit() && v[idx] != digit);
        v[idx] = digit;
        let err = parse_elements("X".to_string(), L1, &v).unwrap_err();
        assert_eq!(err.line, 2);
        assert_eq!(err.field, Field::Checksum);
    }
}

#[test]
fn bad_inclination_field_rejected() {
    let mut v = L2.to_vec();
    v[13] = b'A';
    let v = with_checksum(v);
    let err = parse_elements("X".to_string(), L1, &v).unwrap_err();
    assert_eq!(err.line, 2);
    assert_eq!(err.field, Field::Inclination);
}

#[test]
fn inclination_beyond_180_rejected() {
    let mut v = L2.to_vec();
    v[8..16].copy_from_slice(b"190.0000");
    let v = with_checksum(v);
    let err = parse_elements("X".to_string(), L1, &v).unwrap_err();
    assert_eq!(err.line, 2);
    assert_eq!(err.field, Field::Inclination);
}

#[test]
fn zero_mean_motion_rejected() {
    let mut v = L2.to_vec();
    v[52..63].copy_from_slice(b"00.00000000");
    let v = with_checksum(v);
    let err = parse_elements("X".to_string(), L1, &v).unwrap_err();
    assert_eq!(err.line, 2);
    assert_eq!(err.field, Field::MeanMotion);
}

#[test]
fn each_field_rejected_at_its_own_name() {
    // Spoil one byte of each remaining field (checksum repaired), and the
    // error names that field.
    let line1_cases: &[(usize, Field)] = &[
        (3, Field::CatalogNumber),
        (18, Field::EpochYear),
        (36, Field::MeanMotionDot),
        (45, Field::MeanMotionDotDot),
        (65, Field::ElementSetNumber),
    ];
    for &(idx, field) in line1_cases {
        let mut v = L1.to_vec();
        v[idx] = b'x';
        let v = with_checksum(v);
        let err = parse_elements("X".to_string(), &v, L2).unwrap_err();
        assert_eq!((err.line, err.field), (1, field));
    }
    let line2_cases: &[(usize, Field)] = &[
        (18, Field::Raan),
        (27, Field::Eccentricity),
        (36, Field::ArgPerigee),
        (44, Field::MeanAnomaly),
        (54, Field::MeanMotion),
        (65, Field::RevNumber),
    ];
    for &(idx, field) in line2_cases {
        let mut v = L2.to_vec();
        v[idx] = b'x';
        let v = with_checksum(v);
        let err = parse_elements("X".to_string(), L1, &v).unwrap_err();
        assert_eq!((err.line, err.field), (2, field));
    }
}

#[test]
fn catalog_mismatch_rejected() {
    let mut v = L2.to_vec();
    v[6] = b'8';
    let v = with_checksum(v);
    let err = parse_elements("X".to_string(), L1, &v).unwrap_err();
    assert_eq!(err.line, 2);
    assert_eq!(err.field, Field::CatalogNumber);
}

#[test]
fn bad_drag_term_rejected() {
    let mut v = L1.to_vec();
    v[54] = b'x';
    let v = with_checksum(v);
    let err = parse_elements("X".to_string(), &v, L2).unwrap_err();
    assert_eq!(err.line, 1);
    assert_eq!(err.field, Field::BStar);
}

#[test]
fn bad_epoch_day_rejected() {
    let mut v = L1.to_vec();
    v[23] = b',';
    let v = with_checksum(v);
    let err = parse_elements("X".to_string(), &v, L2).unwrap_err();
    assert_eq!(err.line, 1);
    assert_eq!(err.field, Field::EpochDay);
}

#[test]
fn grifex_epoch_on_unix_time_line() {
    let e = parse_elements("GRIFEX".to_string(), L1, L2).unwrap();
    assert_eq!(days_to_year_exec(e.epoch_year), 16_436);
    let us = epoch_unix_us(&e);
    // 2015 day 243.42702278: end of August 2015.
    assert_eq!(us, 1_441_016_094_768_192);
}

#[test]
fn days_to_year_handles_leap_years() {
    assert_eq!(days_to_year_exec(1970), 0);
    assert_eq!(days_to_year_exec(1971), 365);
    assert_eq!(days_to_year_exec(1972), 730);
    assert_eq!(days_to_year_exec(1973), 1096);
    assert_eq!(days_to_year_exec(2000), 10_957);
    assert_eq!(days_to_year_exec(2001), 11_323);
}

#[test]
fn minutes_since_epoch_floors() {
    let epoch = 1_441_016_094_768_192i64;
    assert_eq!(minutes_since_epoch_e3(epoch, epoch), 0);
    assert_eq!(minutes_since_epoch_e3(epoch, epoch + 90_000), 1);
    assert_eq!(minutes_since_epoch_e3(epoch, epoch - 1), -1);
    assert_eq!(minutes_since_epoch_e3(epoch, epoch - 60_000), -1);
    assert_eq!(minutes_since_epoch_e3(epoch, epoch - 60_001), -2);
    assert_eq!(minutes_since_epoch_e3(epoch, epoch + 6_000_000), 100);
}

#[test]
fn offset_roundtrips_whole_milliminutes() {
    let epoch = 1_441_016_094_768_192i64;
    let t = offset_unix_us(epoch, 95_512);
    assert_eq!(t, epoch + 95_512 * 60_000);
    assert_eq!(minutes_since_epoch_e3(epoch, t), 95_512);
}
