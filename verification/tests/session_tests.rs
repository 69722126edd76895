use gpredict::observe::Observable;
use gpredict::observe::RawObservation;
use gpredict::parse::parse_elements;
use gpredict::predict::Location;
use gpredict::predict::Predict;
use gpredict::predict::PropagationStatus;

const L1: &[u8] = b"1 40379U 15003D   15243.42702278  .00003367  00000-0  17130-3 0  9993";
const L2: &[u8] = b"2 40379  99.1124 290.6779 0157088   8.9691 351.4280 15.07659299 31889";

fn location_from_degrees(lat_deg: f64, lon_deg: f64, alt_m: i32) -> Location {
    Location {
        lat_e7: (lat_deg * 1e7).round() as i64,
        lon_e7: (lon_deg * 1e7).round() as i64,
        alt_m,
    }
}

fn sample_raw() -> RawObservation {
    RawObservation {
        az_e7: 1_234_567_890,
        el_e7: 123_456_789,
        range_km_e3: 1_523_456,
        range_rate_km_s_e6: -3_214_000,
        ssp_lat_e7: 581_234_567,
        ssp_lon_e7: 231_234_567,
        alt_km_e3: 654_321,
        vel_km_s_e6: 7_612_345,
        orbit_nr: 3188,
    }
}

#[test]
fn location_partialeq() {
    let first = location_from_degrees(56.7865, 21.4444, 8);
    let second = location_from_degrees(56.786500000000004, 21.444399999999998, 8);
    assert_eq!(first, second);
}

#[test]
fn advance_replaces_snapshot_wholesale() {
    let e = parse_elements("GRIFEX".to_string(), L1, L2).unwrap();
    let loc = location_from_degrees(58.64560, 23.15163, 8);
    let mut p = Predict::new(e, &loc);
    assert_eq!(p.sat.aos_unix_us, None);
    assert_eq!(p.sat.los_unix_us, None);
    let raw = sample_raw();
    let st = p.update(&raw, Some(1_441_016_100_000_000), Some(1_441_016_700_000_000));
    assert_eq!(st, PropagationStatus::Nominal);
    assert_eq!(p.sat.az_e7, 1_234_567_890);
    assert_eq!(p.sat.el_e7, 123_456_789);
    assert_eq!(p.sat.range_km_e3, 1_523_456);
    assert_eq!(p.sat.orbit_nr, 3188);
    assert_eq!(p.sat.aos_unix_us, Some(1_441_016_100_000_000));
    assert_eq!(p.sat.los_unix_us, Some(1_441_016_700_000_000));
}

#[test]
fn advance_twice_gives_identical_snapshots() {
    // Determinism: the same instant's readings produce bit-for-bit the same
    // snapshot, whatever the session held before.
    let e1 = parse_elements("GRIFEX".to_string(), L1, L2).unwrap();
    let e2 = parse_elements("GRIFEX".to_string(), L1, L2).unwrap();
    let loc = location_from_degrees(58.64560, 23.15163, 8);
    let mut p1 = Predict::new(e1, &loc);
    let mut p2 = Predict::new(e2, &loc);
    let raw = sample_raw();
    // Give the two sessions different histories first.
    let other = RawObservation { az_e7: 9_999, el_e7: -5, ..sample_raw() };
    p1.update(&other, None, None);
    p1.update(&raw, Some(7), None);
    p2.update(&raw, Some(7), None);
    assert_eq!(p1.sat, p2.sat);
    let snap: Observable = p1.sat;
    p1.update(&raw, Some(7), None);
    assert_eq!(p1.sat, snap);
}

#[test]
fn snapshot_angles_normalized_into_ranges() {
    let e = parse_elements("GRIFEX".to_string(), L1, L2).unwrap();
    let loc = location_from_degrees(58.64560, 23.15163, 8);
    let mut p = Predict::new(e, &loc);
    let raw = RawObservation {
        az_e7: -4_500_000_000,   // -450 degrees winds to 270
        el_e7: 950_000_000,      // 95 degrees clamps to 90
        ssp_lat_e7: -950_000_000,
        ssp_lon_e7: 1_900_000_000,  // 190 degrees wraps to -170
        ..sample_raw()
    };
    p.update(&raw, None, None);
    assert_eq!(p.sat.az_e7, 2_700_000_000);
    assert_eq!(p.sat.el_e7, 900_000_000);
    assert_eq!(p.sat.ssp_lat_e7, -900_000_000);
    assert_eq!(p.sat.ssp_lon_e7, -1_700_000_000);
    assert!(p.sat.az_e7 >= 0 && p.sat.az_e7 < 3_600_000_000);
    assert!(p.sat.el_e7 >= -900_000_000 && p.sat.el_e7 <= 900_000_000);
    assert!(p.sat.ssp_lon_e7 >= -1_800_000_000 && p.sat.ssp_lon_e7 < 1_800_000_000);
}

#[test]
fn never_rising_pass_is_absent_not_error() {
    // A geostationary-regime satellite the observer never sees: the search
    // yields no crossings and the snapshot carries absent instants.
    let e = parse_elements("GRIFEX".to_string(), L1, L2).unwrap();
    let loc = location_from_degrees(58.64560, 23.15163, 8);
    let mut p = Predict::new(e, &loc);
    let below = RawObservation { el_e7: -500_000_000, ..sample_raw() };
    let st = p.update(&below, None, None);
    assert_eq!(st, PropagationStatus::Nominal);
    assert_eq!(p.sat.aos_unix_us, None);
    assert_eq!(p.sat.los_unix_us, None);
}

#[test]
fn decay_reported_below_earth_surface() {
    let e = parse_elements("GRIFEX".to_string(), L1, L2).unwrap();
    let loc = location_from_degrees(0.0, 0.0, 0);
    let mut p = Predict::new(e, &loc);
    let sunk = RawObservation { alt_km_e3: -1, ..sample_raw() };
    assert_eq!(p.update(&sunk, None, None), PropagationStatus::Decayed);
    let grazing = RawObservation { alt_km_e3: 0, ..sample_raw() };
    assert_eq!(p.update(&grazing, None, None), PropagationStatus::Nominal);
}
